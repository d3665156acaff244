use std::rc::Rc;
use vstd::prelude::*;
use crate::formula::Formula;

verus! {

/// Two formulas related by a conjunction, a disjunction, an implication or a
/// biconditional.
pub enum BinaryConnective {
    Conjunction(Rc<Formula>, Rc<Formula>),
    Disjunction(Rc<Formula>, Rc<Formula>),
    Implication(Rc<Formula>, Rc<Formula>),
    Biconditional(Rc<Formula>, Rc<Formula>),
}

impl BinaryConnective {
    /// The glyph of the connective: `∧`, `∨`, `→` or `↔`.
    pub open spec fn symbol(&self) -> char {
        match self {
            BinaryConnective::Conjunction(..) => '\u{2227}',
            BinaryConnective::Disjunction(..) => '\u{2228}',
            BinaryConnective::Implication(..) => '\u{2192}',
            BinaryConnective::Biconditional(..) => '\u{2194}',
        }
    }

    /// `left SYM right`, with no brackets of its own.
    pub open spec fn text(&self) -> Seq<char>
        decreases self,
    {
        match self {
            BinaryConnective::Conjunction(l, r) => connective_text(l.text(), '\u{2227}', r.text()),
            BinaryConnective::Disjunction(l, r) => connective_text(l.text(), '\u{2228}', r.text()),
            BinaryConnective::Implication(l, r) => connective_text(l.text(), '\u{2192}', r.text()),
            BinaryConnective::Biconditional(l, r) => connective_text(l.text(), '\u{2194}', r.text()),
        }
    }

    pub fn and(form1: Rc<Formula>, form2: Rc<Formula>) -> (r: Self)
        ensures
            r == BinaryConnective::Conjunction(form1, form2),
    {
        BinaryConnective::Conjunction(form1, form2)
    }

    pub fn or(form1: Rc<Formula>, form2: Rc<Formula>) -> (r: Self)
        ensures
            r == BinaryConnective::Disjunction(form1, form2),
    {
        BinaryConnective::Disjunction(form1, form2)
    }

    pub fn implies(form1: Rc<Formula>, form2: Rc<Formula>) -> (r: Self)
        ensures
            r == BinaryConnective::Implication(form1, form2),
    {
        BinaryConnective::Implication(form1, form2)
    }

    pub fn iff(form1: Rc<Formula>, form2: Rc<Formula>) -> (r: Self)
        ensures
            r == BinaryConnective::Biconditional(form1, form2),
    {
        BinaryConnective::Biconditional(form1, form2)
    }

    pub fn render(&self) -> (r: String)
        ensures
            r@ == self.text(),
        decreases self,
    {
        proof {
            reveal_strlit(" \u{2227} ");
            reveal_strlit(" \u{2228} ");
            reveal_strlit(" \u{2192} ");
            reveal_strlit(" \u{2194} ");
        }
        let (form1, separator, form2) = match self {
            BinaryConnective::Conjunction(l, r) => (l, " \u{2227} ", r),
            BinaryConnective::Disjunction(l, r) => (l, " \u{2228} ", r),
            BinaryConnective::Implication(l, r) => (l, " \u{2192} ", r),
            BinaryConnective::Biconditional(l, r) => (l, " \u{2194} ", r),
        };
        assert(separator@ == seq![' ', self.symbol(), ' ']);
        let mut out = form1.render();
        out.append(separator);
        let right = form2.render();
        out.append(right.as_str());
        assert(out@ =~= self.text());
        out
    }
}

/// `left SYM right`, the glyph set off by one space on each side.
pub open spec fn connective_text(left: Seq<char>, symbol: char, right: Seq<char>) -> Seq<char> {
    left + seq![' ', symbol, ' '] + right
}

} // verus!
