use std::rc::Rc;
use vstd::prelude::*;
use crate::term::Term;

verus! {

/// An uninterpreted operator applied to an ordered list of terms.
pub struct Function {
    pub name: String,
    pub arguments: Vec<Rc<Term>>,
}

impl Function {
    /// The texts of the first `n` arguments, joined by commas.
    pub open spec fn args_text(&self, n: nat) -> Seq<char>
        decreases self, n,
    {
        if n == 0 || n > self.arguments.len() {
            seq![]
        } else if n == 1 {
            self.arguments@[0].text()
        } else {
            self.args_text((n - 1) as nat) + seq![','] + self.arguments@[n - 1].text()
        }
    }

    /// `name(a1,...,ak)`.
    pub open spec fn text(&self) -> Seq<char>
        decreases self, self.arguments.len() + 1,
    {
        self.name@ + seq!['('] + self.args_text(self.arguments.len() as nat) + seq![')']
    }

    pub fn new(name: String, arguments: Vec<Rc<Term>>) -> (r: Self)
        ensures
            r.name@ == name@,
            r.arguments@ == arguments@,
    {
        Function { name, arguments }
    }

    pub fn render(&self) -> (r: String)
        ensures
            r@ == self.text(),
        decreases self, self.arguments.len() + 1,
    {
        proof {
            reveal_strlit("(");
            reveal_strlit(")");
        }
        let mut out = self.name.clone();
        out.append("(");
        assert(out@ =~= self.name@ + seq!['('] + self.args_text(0));
        let mut i: usize = 0;
        while i < self.arguments.len()
            invariant
                i <= self.arguments.len(),
                out@ == self.name@ + seq!['('] + self.args_text(i as nat),
            decreases self.arguments.len() - i,
        {
            proof {
                reveal_strlit(",");
            }
            if i > 0 {
                out.append(",");
            }
            let part = self.arguments[i].render();
            assert(part@ == self.arguments@[i as int].text());
            out.append(part.as_str());
            assert(self.args_text((i + 1) as nat) == if i == 0 {
                part@
            } else {
                self.args_text(i as nat) + seq![','] + part@
            });
            assert(out@ =~= self.name@ + seq!['('] + self.args_text((i + 1) as nat));
            i += 1;
        }
        out.append(")");
        assert(out@ =~= self.text());
        out
    }
}

} // verus!
