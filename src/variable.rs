use vstd::prelude::*;

verus! {

/// An atomic named logical object.
pub struct Variable {
    pub name: String,
}

impl Variable {
    /// The text of a variable: its name, with no decoration.
    pub open spec fn text(&self) -> Seq<char> {
        self.name@
    }

    pub fn new(name: String) -> (r: Self)
        ensures
            r.name@ == name@,
    {
        Variable { name }
    }

    pub fn render(&self) -> (r: String)
        ensures
            r@ == self.text(),
    {
        self.name.clone()
    }
}

impl PartialEq for Variable {
    fn eq(&self, other: &Variable) -> (r: bool) {
        self.name == other.name
    }
}

impl vstd::std_specs::cmp::PartialEqSpecImpl for Variable {
    open spec fn obeys_eq_spec() -> bool {
        true
    }

    open spec fn eq_spec(&self, other: &Variable) -> bool {
        self.name@ == other.name@
    }
}

impl Eq for Variable {}

} // verus!
