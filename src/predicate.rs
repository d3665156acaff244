use std::rc::Rc;
use vstd::prelude::*;
use crate::notation::{applied, comma_join, lemma_comma_join_step};
use crate::variable::Variable;

verus! {

/// A named relation over an ordered list of variables.
pub struct Predicate {
    pub name: String,
    pub arguments: Vec<Rc<Variable>>,
}

impl Predicate {
    /// The texts of the arguments, in order.
    pub open spec fn arg_texts(&self) -> Seq<Seq<char>> {
        Seq::new(self.arguments.len() as nat, |i: int| self.arguments@[i].text())
    }

    /// `name(v1,...,vk)`.
    pub open spec fn text(&self) -> Seq<char> {
        applied(self.name@, self.arg_texts())
    }

    pub fn new(name: String, arguments: Vec<Rc<Variable>>) -> (r: Self)
        ensures
            r.name@ == name@,
            r.arguments@ == arguments@,
    {
        Predicate { name, arguments }
    }

    pub fn render(&self) -> (r: String)
        ensures
            r@ == self.text(),
    {
        proof {
            reveal_strlit("(");
            reveal_strlit(")");
        }
        let ghost parts = self.arg_texts();
        let mut out = self.name.clone();
        out.append("(");
        assert(parts.take(0) =~= Seq::<Seq<char>>::empty());
        assert(out@ =~= self.name@ + seq!['('] + comma_join(parts.take(0)));
        let mut i: usize = 0;
        while i < self.arguments.len()
            invariant
                i <= self.arguments.len(),
                parts == self.arg_texts(),
                out@ == self.name@ + seq!['('] + comma_join(parts.take(i as int)),
            decreases self.arguments.len() - i,
        {
            proof {
                reveal_strlit(",");
            }
            if i > 0 {
                out.append(",");
            }
            let part = self.arguments[i].render();
            out.append(part.as_str());
            proof {
                if i == 0 {
                    assert(parts.take(1) =~= seq![parts[0]]);
                } else {
                    lemma_comma_join_step(parts, i as int);
                }
            }
            assert(out@ =~= self.name@ + seq!['('] + comma_join(parts.take(i + 1)));
            i += 1;
        }
        out.append(")");
        assert(parts.take(i as int) =~= parts);
        assert(out@ =~= self.text());
        out
    }
}

} // verus!
