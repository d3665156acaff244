use std::rc::Rc;
use vstd::prelude::*;
use crate::formula::Formula;
use crate::variable::Variable;

verus! {

/// A variable bound over a formula, universally or existentially.
pub enum Quantifier {
    Universal(Rc<Variable>, Rc<Formula>),
    Existential(Rc<Variable>, Rc<Formula>),
}

/// `Q v[body]`, with `Q` the glyph of the quantifier.
pub open spec fn quantified_text(symbol: char, variable: Seq<char>, body: Seq<char>) -> Seq<char> {
    seq![symbol] + variable + seq!['['] + body + seq![']']
}

impl Quantifier {
    /// `∀v[body]` or `∃v[body]`.
    pub open spec fn text(&self) -> Seq<char>
        decreases self,
    {
        match self {
            Quantifier::Universal(v, f) => quantified_text('\u{2200}', v.text(), f.text()),
            Quantifier::Existential(v, f) => quantified_text('\u{2203}', v.text(), f.text()),
        }
    }

    pub fn universal(variable: Rc<Variable>, formula: Rc<Formula>) -> (r: Self)
        ensures
            r == Quantifier::Universal(variable, formula),
    {
        Quantifier::Universal(variable, formula)
    }

    pub fn existent(variable: Rc<Variable>, formula: Rc<Formula>) -> (r: Self)
        ensures
            r == Quantifier::Existential(variable, formula),
    {
        Quantifier::Existential(variable, formula)
    }

    pub fn render(&self) -> (r: String)
        ensures
            r@ == self.text(),
        decreases self,
    {
        proof {
            reveal_strlit("\u{2200}");
            reveal_strlit("\u{2203}");
            reveal_strlit("[");
            reveal_strlit("]");
        }
        let (glyph, variable, formula) = match self {
            Quantifier::Universal(v, f) => ("\u{2200}", v, f),
            Quantifier::Existential(v, f) => ("\u{2203}", v, f),
        };
        let mut out = String::new();
        out.append(glyph);
        let name = variable.render();
        out.append(name.as_str());
        out.append("[");
        let body = formula.render();
        out.append(body.as_str());
        out.append("]");
        assert(out@ =~= self.text());
        out
    }
}

} // verus!
