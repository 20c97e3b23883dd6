//! A capability for values that carry a name, with two implementing
//! kinds. The accessor hands out a reference to the value's own field,
//! so whichever kind a binding holds at the moment of the call decides
//! which name comes back.

use vstd::prelude::*;

verus! {

/// Anything whose name can be read as a text reference.
pub trait Animal {
    /// The name this value carries.
    spec fn spec_name(&self) -> Seq<char>;

    /// Returns a reference to this value's own name field.
    fn name(&self) -> (r: &String)
        ensures
            r@ == self.spec_name(),
    ;
}

pub struct Person {
    pub name: String,
}

impl Animal for Person {
    open spec fn spec_name(&self) -> Seq<char> {
        self.name@
    }

    fn name(&self) -> (r: &String)
        ensures
            r@ == self.spec_name(),
    {
        &self.name
    }
}

pub struct Dog {
    pub name: String,
}

impl Animal for Dog {
    open spec fn spec_name(&self) -> Seq<char> {
        self.name@
    }

    fn name(&self) -> (r: &String)
        ensures
            r@ == self.spec_name(),
    {
        &self.name
    }
}

/// Reads the name of any animal through the shared capability.
pub fn say_name<A: Animal>(a: &A) -> (r: &String)
    ensures
        r@ == a.spec_name(),
{
    a.name()
}

} // verus!
