use vstd::prelude::*;

use crate::strutil::dec_rep;

verus! {

/// The stable identifier of one test case.
#[derive(Debug, Clone, Copy, PartialEq, Eq, Structural, Hash, PartialOrd, Ord)]
pub struct TestId {
    id: u32,
}

impl View for TestId {
    type V = nat;

    closed spec fn view(&self) -> nat {
        self.id as nat
    }
}

impl TestId {
    pub fn new(id: u32) -> (r: Self)
        ensures
            r@ == id,
    {
        Self { id }
    }

    pub fn value(&self) -> (r: u32)
        ensures
            r == self@,
    {
        self.id
    }

    /// Renders the identifier in decimal.
    pub fn render(&self) -> (s: String)
        ensures
            s@ == dec_rep(self@),
    {
        crate::strutil::u64_to_string(self.id as u64)
    }
}

} // verus!
