use crate::strings::{owned, str_eq};
use vstd::prelude::*;

verus! {

/// The version of the DAP protocol that an aggregator speaks, by its name.
#[derive(Debug)]
pub struct Protocol {
    pub name: String,
}

impl Protocol {
    /// Whether two protocols are the same.
    pub fn same_as(&self, other: &Protocol) -> (r: bool)
        ensures
            r == (self.name@ == other.name@),
    {
        str_eq(self.name.as_str(), other.name.as_str())
    }

    /// A copy of the protocol.
    pub fn duplicate(&self) -> (r: Protocol)
        ensures
            r.name@ == self.name@,
    {
        Protocol { name: owned(self.name.as_str()) }
    }
}

} // verus!
