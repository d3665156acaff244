use std::rc::Rc;
use vstd::prelude::*;
use crate::binary_connective::BinaryConnective;
use crate::formula::Formula;
use crate::function::Function;
use crate::notation::{applied, comma_count, comma_join, lemma_comma_join_separators, lemma_comma_join_step};
use crate::predicate::Predicate;
use crate::quantifier::Quantifier;
use crate::variable::Variable;

verus! {

/// The texts of a function's arguments, in order.
pub open spec fn function_arg_texts(f: Function) -> Seq<Seq<char>> {
    Seq::new(f.arguments.len() as nat, |i: int| f.arguments@[i].text())
}

proof fn lemma_args_text_join(f: Function, n: nat)
    requires
        n <= f.arguments.len(),
    ensures
        f.args_text(n) == comma_join(function_arg_texts(f).take(n as int)),
    decreases n,
{
    let parts = function_arg_texts(f);
    if n == 0 {
        assert(parts.take(0) =~= Seq::<Seq<char>>::empty());
    } else if n == 1 {
        assert(parts.take(1) =~= seq![parts[0]]);
    } else {
        lemma_args_text_join(f, (n - 1) as nat);
        lemma_comma_join_step(parts, n - 1);
    }
}

/// A function with k arguments prints as its name followed by the texts of
/// its arguments, in order, joined by commas inside parentheses: `name()`
/// when k is 0, and when no argument's text holds a comma, exactly k - 1
/// commas between the parentheses.
pub proof fn lemma_function_text(f: Function)
    ensures
        f.text() == applied(f.name@, function_arg_texts(f)),
        f.arguments.len() == 0 ==> f.text() == f.name@ + seq!['(', ')'],
        f.arguments.len() >= 1 && (forall|i: int|
            0 <= i < f.arguments.len() ==> comma_count(#[trigger] f.arguments@[i].text()) == 0)
            ==> comma_count(comma_join(function_arg_texts(f))) == f.arguments.len() - 1,
{
    let parts = function_arg_texts(f);
    lemma_args_text_join(f, f.arguments.len() as nat);
    assert(parts.take(parts.len() as int) =~= parts);
    if f.arguments.len() == 0 {
        assert(f.text() =~= f.name@ + seq!['(', ')']);
    } else if forall|i: int|
        0 <= i < f.arguments.len() ==> comma_count(#[trigger] f.arguments@[i].text()) == 0 {
        assert forall|i: int| 0 <= i < parts.len() implies comma_count(#[trigger] parts[i]) == 0 by {
            assert(parts[i] == f.arguments@[i].text());
        }
        lemma_comma_join_separators(parts);
    }
}

/// A predicate with k variables prints as its name followed by the names of
/// its variables, in order, joined by commas inside parentheses: `name()`
/// when k is 0, and when no variable's name holds a comma, exactly k - 1
/// commas between the parentheses.
pub proof fn lemma_predicate_text(p: Predicate)
    ensures
        p.text() == applied(p.name@, p.arg_texts()),
        p.arguments.len() == 0 ==> p.text() == p.name@ + seq!['(', ')'],
        p.arguments.len() >= 1 && (forall|i: int|
            0 <= i < p.arguments.len() ==> comma_count(#[trigger] p.arguments@[i].name@) == 0)
            ==> comma_count(comma_join(p.arg_texts())) == p.arguments.len() - 1,
{
    let parts = p.arg_texts();
    if p.arguments.len() == 0 {
        assert(p.text() =~= p.name@ + seq!['(', ')']);
    } else if forall|i: int|
        0 <= i < p.arguments.len() ==> comma_count(#[trigger] p.arguments@[i].name@) == 0 {
        assert forall|i: int| 0 <= i < parts.len() implies comma_count(#[trigger] parts[i]) == 0 by {
            assert(parts[i] == p.arguments@[i].name@);
        }
        lemma_comma_join_separators(parts);
    }
}

/// A variable prints as its name and nothing else.
pub proof fn lemma_variable_text(v: Variable)
    ensures
        v.text() == v.name@,
{
}

/// A negation prints as `¬` directly followed by its operand.
pub proof fn lemma_negation_text(formula: Rc<Formula>)
    ensures
        Formula::Not(formula).text() == seq!['\u{00ac}'] + formula.text(),
{
}

/// An equality prints as `[t1 = t2]`.
pub proof fn lemma_equality_text(term1: Rc<crate::term::Term>, term2: Rc<crate::term::Term>)
    ensures
        Formula::Equal(term1, term2).text() == seq!['['] + term1.text() + seq![' ', '=', ' ']
            + term2.text() + seq![']'],
{
}

/// A connective prints as its left operand, its glyph set off by spaces, and
/// its right operand; wrapped as a formula it gains one pair of square
/// brackets.
pub proof fn lemma_connective_text(form1: Rc<Formula>, form2: Rc<Formula>)
    ensures
        BinaryConnective::Conjunction(form1, form2).text() == form1.text() + seq![' ', '\u{2227}', ' ']
            + form2.text(),
        BinaryConnective::Disjunction(form1, form2).text() == form1.text() + seq![' ', '\u{2228}', ' ']
            + form2.text(),
        BinaryConnective::Implication(form1, form2).text() == form1.text() + seq![' ', '\u{2192}', ' ']
            + form2.text(),
        BinaryConnective::Biconditional(form1, form2).text() == form1.text() + seq![
            ' ',
            '\u{2194}',
            ' ',
        ] + form2.text(),
        forall|b: BinaryConnective|
            #![auto]
            Formula::BinaryConnective(Rc::new(b)).text() == seq!['['] + b.text() + seq![']'],
{
}

/// A quantifier prints as its glyph, its variable, and its body in square
/// brackets: `∀v[body]` or `∃v[body]`.
pub proof fn lemma_quantifier_text(variable: Rc<Variable>, formula: Rc<Formula>)
    ensures
        Quantifier::Universal(variable, formula).text() == seq!['\u{2200}'] + variable.name@ + seq!['[']
            + formula.text() + seq![']'],
        Quantifier::Existential(variable, formula).text() == seq!['\u{2203}'] + variable.name@ + seq![
            '[',
        ] + formula.text() + seq![']'],
        forall|q: Quantifier| #![auto] Formula::Quantifier(Rc::new(q)).text() == q.text(),
{
}

/// Rendering is a pure function of the tree: two renderings of one formula
/// give the same text.
pub proof fn lemma_rendering_is_pure(formula: &Formula, first: String, second: String)
    requires
        first@ == formula.text(),
        second@ == formula.text(),
    ensures
        first@ == second@,
{
}

} // verus!
