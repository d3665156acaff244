use std::rc::Rc;

use predicate_logic::binary_connective::BinaryConnective;
use predicate_logic::builders;
use predicate_logic::builders::{
    and, bin_form, eq_form, equivalent, for_all, func, not, or, pred, pred_form,
    quant_form, there_exists, var, var_term,
};
use predicate_logic::formula::Formula;
use predicate_logic::function::Function;
use predicate_logic::predicate::Predicate;
use predicate_logic::quantifier::Quantifier;
use predicate_logic::term::Term;
use predicate_logic::variable::Variable;

#[test]
fn variable_renders_its_name() {
    let x = Variable::new("x".to_string());
    assert_eq!(x.render(), "x");
    assert_eq!(var("longer_name").render(), "longer_name");
}

#[test]
fn variable_with_empty_name_renders_empty() {
    assert_eq!(Variable::new(String::new()).render(), "");
}

#[test]
fn variables_compare_by_name() {
    assert!(Variable::new("x".to_string()) == Variable::new("x".to_string()));
    assert!(Variable::new("x".to_string()) != Variable::new("y".to_string()));
}

#[test]
fn function_renders_arguments_without_trailing_comma() {
    let x = var_term(&var("x"));
    let y = var_term(&var("y"));
    let z = var_term(&var("z"));
    assert_eq!(func("f", &[x.clone()]).render(), "f(x)");
    assert_eq!(func("f", &[x.clone(), y.clone()]).render(), "f(x,y)");
    let g = func("g", &[x, y, z]);
    let text = g.render();
    assert_eq!(text, "g(x,y,z)");
    assert_eq!(text.matches(',').count(), 2);
}

#[test]
fn function_with_no_arguments_renders_empty_parentheses() {
    assert_eq!(Function::new("c".to_string(), Vec::new()).render(), "c()");
    assert_eq!(func("zero", &[]).render(), "zero()");
}

#[test]
fn function_term_renders_as_its_function() {
    let x = var_term(&var("x"));
    let inner = func("g", &[x.clone()]);
    let inner_term = Rc::new(Term::from_function(inner));
    let outer = func("f", &[inner_term.clone(), x]);
    assert_eq!(inner_term.render(), "g(x)");
    assert_eq!(outer.render(), "f(g(x),x)");
    assert_eq!(Term::from_function(outer).render(), "f(g(x),x)");
}

#[test]
fn variable_term_renders_as_its_variable() {
    assert_eq!(Term::from_variable(var("v")).render(), "v");
}

#[test]
fn predicate_renders_variables_in_order() {
    let x = var("x");
    let y = var("y");
    let z = var("z");
    assert_eq!(pred("Q", &[x.clone()]).render(), "Q(x)");
    let p = Predicate::new("R".to_string(), vec![z, x, y]);
    let text = p.render();
    assert_eq!(text, "R(z,x,y)");
    assert_eq!(text.matches(',').count(), 2);
}

#[test]
fn scenario_predicate_of_two_variables() {
    let x = var("x");
    let y = var("y");
    assert_eq!(pred("P", &[x, y]).render(), "P(x,y)");
}

#[test]
fn scenario_zero_argument_predicate() {
    assert_eq!(pred("True", &[]).render(), "True()");
    assert_eq!(Formula::from_predicate(pred("True", &[])).render(), "True()");
}

#[test]
fn negation_prefixes_the_operand() {
    let p = pred_form(&pred("P", &[var("x")]));
    assert_eq!(not(&p).render(), "¬P(x)");
    assert_eq!(Formula::negate(not(&p)).render(), "¬¬P(x)");
    let conj = bin_form(&and(&p, &p));
    assert_eq!(not(&conj).render(), "¬[P(x) ∧ P(x)]");
}

#[test]
fn equality_is_bracketed() {
    let x = var_term(&var("x"));
    let fy = Rc::new(Term::from_function(func("f", &[var_term(&var("y"))])));
    assert_eq!(eq_form(&x, &fy).render(), "[x = f(y)]");
    assert_eq!(Formula::equality(fy, x).render(), "[f(y) = x]");
}

#[test]
fn connectives_render_bare_and_bracketed_as_formulas() {
    let p = pred_form(&pred("P", &[var("x")]));
    let q = pred_form(&pred("Q", &[var("y")]));
    assert_eq!(and(&p, &q).render(), "P(x) ∧ Q(y)");
    assert_eq!(bin_form(&and(&p, &q)).render(), "[P(x) ∧ Q(y)]");
    assert_eq!(or(&p, &q).render(), "P(x) ∨ Q(y)");
    assert_eq!(builders::implies(&p, &q).render(), "P(x) → Q(y)");
    assert_eq!(equivalent(&p, &q).render(), "P(x) ↔ Q(y)");
    assert_eq!(BinaryConnective::and(p.clone(), q.clone()).render(), "P(x) ∧ Q(y)");
    assert_eq!(BinaryConnective::or(p.clone(), q.clone()).render(), "P(x) ∨ Q(y)");
    assert_eq!(BinaryConnective::implies(p.clone(), q.clone()).render(), "P(x) → Q(y)");
    assert_eq!(BinaryConnective::iff(q.clone(), p.clone()).render(), "Q(y) ↔ P(x)");
    let nested = Formula::from_binary_connective(Rc::new(BinaryConnective::or(
        bin_form(&and(&p, &q)),
        p,
    )));
    assert_eq!(nested.render(), "[[P(x) ∧ Q(y)] ∨ P(x)]");
}

#[test]
fn quantifiers_bracket_their_body() {
    let x = var("x");
    let p = pred_form(&pred("P", &[x.clone()]));
    assert_eq!(for_all(&x, &p).render(), "∀x[P(x)]");
    assert_eq!(there_exists(&x, &p).render(), "∃x[P(x)]");
    assert_eq!(Quantifier::universal(x.clone(), p.clone()).render(), "∀x[P(x)]");
    assert_eq!(Quantifier::existent(x.clone(), p.clone()).render(), "∃x[P(x)]");
    assert_eq!(quant_form(&there_exists(&x, &p)).render(), "∃x[P(x)]");
}

#[test]
fn vacuous_and_shadowed_quantifiers_render_normally() {
    let x = var("x");
    let y = var("y");
    let p = pred_form(&pred("P", &[y]));
    let inner = quant_form(&for_all(&x, &p));
    assert_eq!(for_all(&x, &inner).render(), "∀x[∀x[P(y)]]");
}

#[test]
fn scenario_universal_over_predicate() {
    let x = var("x");
    let y = var("y");
    let body = pred_form(&pred("P", &[x.clone(), y]));
    let formula = Formula::from_quantifier(for_all(&x, &body));
    assert_eq!(formula.render(), "∀x[P(x,y)]");
}

#[test]
fn rendering_twice_gives_the_same_text() {
    let x = var("x");
    let y = var("y");
    let f = bin_form(&builders::implies(
        &pred_form(&pred("P", &[x.clone()])),
        &eq_form(&var_term(&x), &var_term(&y)),
    ));
    let first = f.render();
    let second = f.render();
    assert_eq!(first, second);
    assert_eq!(first, "[P(x) → [x = y]]");
}

#[test]
fn scenario_extensionality() {
    let x = var("x");
    let y = var("y");
    let z = var("z");
    let x_equals_y = eq_form(&var_term(&x), &var_term(&y));
    let z_memberof_x = pred("MemberOf", &[z.clone(), x.clone()]);
    let z_memberof_y = pred("MemberOf", &[z.clone(), y.clone()]);
    let equiv = equivalent(&pred_form(&z_memberof_x), &pred_form(&z_memberof_y));
    let for_all_z = for_all(&z, &bin_form(&equiv));
    let p = builders::implies(&quant_form(&for_all_z), &x_equals_y);
    assert_eq!(
        bin_form(&p).render(),
        "[∀z[[MemberOf(z,x) ↔ MemberOf(z,y)]] → [x = y]]"
    );
    let for_all_y = for_all(&y, &bin_form(&p));
    let sentence = for_all(&x, &quant_form(&for_all_y));
    assert_eq!(
        sentence.render(),
        "∀x[∀y[[∀z[[MemberOf(z,x) ↔ MemberOf(z,y)]] → [x = y]]]]"
    );
}

#[test]
fn scenario_regularity() {
    let x = var("x");
    let y = var("y");
    let z = var("z");
    let a = var("a");
    let z_memberof_x = pred("MemberOf", &[z.clone(), x.clone()]);
    let z_memberof_y = pred("MemberOf", &[z.clone(), y.clone()]);
    let a_memberof_x = pred("MemberOf", &[a.clone(), x.clone()]);
    let x_nonempty = there_exists(&a, &pred_form(&a_memberof_x));
    let z_in_y_and_z_in_x = and(&pred_form(&z_memberof_y), &pred_form(&z_memberof_x));
    let no_z = not(&quant_form(&there_exists(&z, &bin_form(&z_in_y_and_z_in_x))));
    let y_memberof_x = pred("MemberOf", &[y.clone(), x.clone()]);
    let y_in_x_and_no_z = and(&pred_form(&y_memberof_x), &no_z);
    let there_exists_y = there_exists(&y, &bin_form(&y_in_x_and_no_z));
    let nonempty_implies = builders::implies(&quant_form(&x_nonempty), &quant_form(&there_exists_y));
    let sentence = for_all(&x, &bin_form(&nonempty_implies));
    assert_eq!(
        sentence.render(),
        "∀x[[∃a[MemberOf(a,x)] → ∃y[[MemberOf(y,x) ∧ ¬∃z[[MemberOf(z,y) ∧ MemberOf(z,x)]]]]]]"
    );
}

#[test]
fn builders_share_their_operands() {
    let x = var("x");
    let p = pred("P", &[x.clone(), x.clone()]);
    assert_eq!(Rc::strong_count(&x), 3);
    let f = pred_form(&p);
    assert_eq!(Rc::strong_count(&p), 2);
    let both = and(&f, &f);
    assert_eq!(Rc::strong_count(&f), 3);
    assert_eq!(both.render(), "P(x,x) ∧ P(x,x)");
}
