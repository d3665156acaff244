use std::rc::Rc;
use vstd::prelude::*;
use crate::function::Function;
use crate::variable::Variable;

verus! {

/// A term: a variable or a function application.
pub enum Term {
    Variable(Rc<Variable>),
    Function(Rc<Function>),
}

impl Term {
    /// The text of a term is the text of the node it holds.
    pub open spec fn text(&self) -> Seq<char>
        decreases self, 0nat,
    {
        match self {
            Term::Variable(v) => v.text(),
            Term::Function(f) => f.text(),
        }
    }

    pub fn from_variable(var: Rc<Variable>) -> (r: Self)
        ensures
            r == Term::Variable(var),
    {
        Term::Variable(var)
    }

    pub fn from_function(func: Rc<Function>) -> (r: Self)
        ensures
            r == Term::Function(func),
    {
        Term::Function(func)
    }

    pub fn render(&self) -> (r: String)
        ensures
            r@ == self.text(),
        decreases self, 0nat,
    {
        match self {
            Term::Variable(v) => v.render(),
            Term::Function(f) => f.render(),
        }
    }
}

} // verus!
