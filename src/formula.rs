use std::rc::Rc;
use vstd::prelude::*;
use crate::binary_connective::BinaryConnective;
use crate::predicate::Predicate;
use crate::quantifier::Quantifier;
use crate::term::Term;

verus! {

/// A well-formed formula of first-order logic with equality.
pub enum Formula {
    Predicate(Rc<Predicate>),
    Equal(Rc<Term>, Rc<Term>),
    Not(Rc<Formula>),
    BinaryConnective(Rc<BinaryConnective>),
    Quantifier(Rc<Quantifier>),
}

/// `[t1 = t2]`.
pub open spec fn equality_text(t1: Seq<char>, t2: Seq<char>) -> Seq<char> {
    seq!['['] + t1 + seq![' ', '=', ' '] + t2 + seq![']']
}

impl Formula {
    /// A predicate and a quantifier print as they are; an equality prints as
    /// `[t1 = t2]`; a negation as `¬` before its operand; a binary connective
    /// inside one pair of square brackets.
    pub open spec fn text(&self) -> Seq<char>
        decreases self,
    {
        match self {
            Formula::Predicate(p) => p.text(),
            Formula::Equal(t1, t2) => equality_text(t1.text(), t2.text()),
            Formula::Not(f) => seq!['\u{00ac}'] + f.text(),
            Formula::BinaryConnective(b) => seq!['['] + b.text() + seq![']'],
            Formula::Quantifier(q) => q.text(),
        }
    }

    pub fn from_predicate(pred: Rc<Predicate>) -> (r: Self)
        ensures
            r == Formula::Predicate(pred),
    {
        Formula::Predicate(pred)
    }

    pub fn equality(term1: Rc<Term>, term2: Rc<Term>) -> (r: Self)
        ensures
            r == Formula::Equal(term1, term2),
    {
        Formula::Equal(term1, term2)
    }

    pub fn negate(formula: Rc<Formula>) -> (r: Self)
        ensures
            r == Formula::Not(formula),
    {
        Formula::Not(formula)
    }

    pub fn from_binary_connective(binary_connective: Rc<BinaryConnective>) -> (r: Self)
        ensures
            r == Formula::BinaryConnective(binary_connective),
    {
        Formula::BinaryConnective(binary_connective)
    }

    pub fn from_quantifier(quantifier: Rc<Quantifier>) -> (r: Self)
        ensures
            r == Formula::Quantifier(quantifier),
    {
        Formula::Quantifier(quantifier)
    }

    pub fn render(&self) -> (r: String)
        ensures
            r@ == self.text(),
        decreases self,
    {
        proof {
            reveal_strlit("[");
            reveal_strlit("]");
            reveal_strlit(" = ");
            reveal_strlit("\u{00ac}");
        }
        match self {
            Formula::Predicate(p) => p.render(),
            Formula::Equal(t1, t2) => {
                let mut out = String::new();
                out.append("[");
                let left = t1.render();
                out.append(left.as_str());
                out.append(" = ");
                let right = t2.render();
                out.append(right.as_str());
                out.append("]");
                assert(out@ =~= self.text());
                out
            },
            Formula::Not(f) => {
                let mut out = String::new();
                out.append("\u{00ac}");
                let operand = f.render();
                out.append(operand.as_str());
                assert(out@ =~= self.text());
                out
            },
            Formula::BinaryConnective(b) => {
                let mut out = String::new();
                out.append("[");
                let inner = b.render();
                out.append(inner.as_str());
                out.append("]");
                assert(out@ =~= self.text());
                out
            },
            Formula::Quantifier(q) => q.render(),
        }
    }
}

} // verus!
