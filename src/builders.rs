use std::rc::Rc;
use vstd::prelude::*;
use crate::binary_connective::BinaryConnective;
use crate::formula::Formula;
use crate::function::Function;
use crate::predicate::Predicate;
use crate::quantifier::Quantifier;
use crate::term::Term;
use crate::variable::Variable;

verus! {

// Each builder allocates one shared node from shared operands, cloning the
// handles it is given rather than taking them, and wraps a connective or a
// quantifier so that it can stand as an operand elsewhere.

/// A shared copy of every handle in `items`, in order.
fn share_all<T>(items: &[Rc<T>]) -> (r: Vec<Rc<T>>)
    ensures
        r@ == items@,
{
    let mut out: Vec<Rc<T>> = Vec::new();
    let mut i: usize = 0;
    while i < items.len()
        invariant
            i <= items@.len(),
            out@ == items@.take(i as int),
        decreases items@.len() - i,
    {
        out.push(items[i].clone());
        assert(out@ =~= items@.take(i + 1));
        i += 1;
    }
    assert(items@.take(i as int) =~= items@);
    out
}

pub fn var(name: &str) -> (r: Rc<Variable>)
    ensures
        r.name@ == name@,
{
    Rc::new(Variable::new(name.to_owned()))
}

pub fn var_term(variable: &Rc<Variable>) -> (r: Rc<Term>)
    ensures
        *r == Term::Variable(*variable),
{
    Rc::new(Term::from_variable(variable.clone()))
}

pub fn func(name: &str, arguments: &[Rc<Term>]) -> (r: Rc<Function>)
    ensures
        r.name@ == name@,
        r.arguments@ == arguments@,
{
    Rc::new(Function::new(name.to_owned(), share_all(arguments)))
}

pub fn pred(name: &str, arguments: &[Rc<Variable>]) -> (r: Rc<Predicate>)
    ensures
        r.name@ == name@,
        r.arguments@ == arguments@,
{
    Rc::new(Predicate::new(name.to_owned(), share_all(arguments)))
}

pub fn pred_form(predicate: &Rc<Predicate>) -> (r: Rc<Formula>)
    ensures
        *r == Formula::Predicate(*predicate),
{
    Rc::new(Formula::from_predicate(predicate.clone()))
}

pub fn quant_form(quantifier: &Rc<Quantifier>) -> (r: Rc<Formula>)
    ensures
        *r == Formula::Quantifier(*quantifier),
{
    Rc::new(Formula::from_quantifier(quantifier.clone()))
}

pub fn bin_form(connective: &Rc<BinaryConnective>) -> (r: Rc<Formula>)
    ensures
        *r == Formula::BinaryConnective(*connective),
{
    Rc::new(Formula::from_binary_connective(connective.clone()))
}

pub fn eq_form(term1: &Rc<Term>, term2: &Rc<Term>) -> (r: Rc<Formula>)
    ensures
        *r == Formula::Equal(*term1, *term2),
{
    Rc::new(Formula::equality(term1.clone(), term2.clone()))
}

pub fn not(formula: &Rc<Formula>) -> (r: Rc<Formula>)
    ensures
        *r == Formula::Not(*formula),
{
    Rc::new(Formula::negate(formula.clone()))
}

pub fn and(form1: &Rc<Formula>, form2: &Rc<Formula>) -> (r: Rc<BinaryConnective>)
    ensures
        *r == BinaryConnective::Conjunction(*form1, *form2),
{
    Rc::new(BinaryConnective::and(form1.clone(), form2.clone()))
}

pub fn or(form1: &Rc<Formula>, form2: &Rc<Formula>) -> (r: Rc<BinaryConnective>)
    ensures
        *r == BinaryConnective::Disjunction(*form1, *form2),
{
    Rc::new(BinaryConnective::or(form1.clone(), form2.clone()))
}

pub fn implies(form1: &Rc<Formula>, form2: &Rc<Formula>) -> (r: Rc<BinaryConnective>)
    ensures
        *r == BinaryConnective::Implication(*form1, *form2),
{
    Rc::new(BinaryConnective::implies(form1.clone(), form2.clone()))
}

pub fn equivalent(form1: &Rc<Formula>, form2: &Rc<Formula>) -> (r: Rc<BinaryConnective>)
    ensures
        *r == BinaryConnective::Biconditional(*form1, *form2),
{
    Rc::new(BinaryConnective::iff(form1.clone(), form2.clone()))
}

pub fn for_all(variable: &Rc<Variable>, formula: &Rc<Formula>) -> (r: Rc<Quantifier>)
    ensures
        *r == Quantifier::Universal(*variable, *formula),
{
    Rc::new(Quantifier::universal(variable.clone(), formula.clone()))
}

pub fn there_exists(variable: &Rc<Variable>, formula: &Rc<Formula>) -> (r: Rc<Quantifier>)
    ensures
        *r == Quantifier::Existential(*variable, *formula),
{
    Rc::new(Quantifier::existent(variable.clone(), formula.clone()))
}

} // verus!
