//! Content addresses.
//!
//! An address names content in the DHT or on a chain.  The core treats it as
//! an opaque string key: the hashing that produces one from content is the
//! persistence layer's business, recorded here as data.

use vstd::prelude::*;

verus! {

/// An opaque content address.
#[derive(Debug, Eq, Hash)]
pub struct Address(pub String);

impl View for Address {
    type V = Seq<char>;

    open spec fn view(&self) -> Seq<char> {
        self.0@
    }
}

impl DeepView for Address {
    type V = Seq<char>;

    open spec fn deep_view(&self) -> Seq<char> {
        self@
    }
}

impl Address {
    /// Wraps a string as an address.
    pub fn from(s: &str) -> (r: Address)
        ensures
            r@ == s@,
    {
        Address(String::from_str(s))
    }

    /// The address as a string.
    pub fn to_string(&self) -> (r: String)
        ensures
            r@ == self@,
    {
        self.0.clone()
    }
}

impl Clone for Address {
    fn clone(&self) -> (r: Self)
        ensures
            r == *self,
    {
        Address(self.0.clone())
    }
}

impl PartialEq for Address {
    fn eq(&self, other: &Address) -> (r: bool) {
        self.0 == other.0
    }
}

impl vstd::std_specs::cmp::PartialEqSpecImpl for Address {
    open spec fn obeys_eq_spec() -> bool {
        true
    }

    open spec fn eq_spec(&self, other: &Address) -> bool {
        self@ == other@
    }
}

} // verus!
