//! Formulas of first-order predicate logic with equality, held as trees of
//! shared immutable nodes, and their rendering in standard logical notation.
//! Every node type has a `text` spec function that says what it prints as,
//! and a `render` method proved to produce exactly that text.

use vstd::prelude::*;

pub mod notation;
pub mod variable;
pub mod term;
pub mod function;
pub mod predicate;
pub mod formula;
pub mod binary_connective;
pub mod quantifier;
pub mod builders;
pub mod laws;

verus! {

} // verus!
