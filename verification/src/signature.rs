//! Signatures and provenance.
//!
//! A provenance is the claimed source address of a request together with a
//! signature over what the request asserts.  Key storage and the signing
//! primitive itself are an external oracle; the core only carries and
//! compares the resulting values.

use vstd::prelude::*;

use crate::address::Address;

verus! {

/// A signature, carried as an opaque string.
#[derive(Debug, Eq, Hash)]
pub struct Signature(pub String);

impl View for Signature {
    type V = Seq<char>;

    open spec fn view(&self) -> Seq<char> {
        self.0@
    }
}

impl Signature {
    /// Wraps a string as a signature.
    pub fn from(s: &str) -> (r: Signature)
        ensures
            r@ == s@,
    {
        Signature(String::from_str(s))
    }

    /// Wraps an owned string as a signature.
    pub fn from_string(s: String) -> (r: Signature)
        ensures
            r@ == s@,
    {
        Signature(s)
    }

    /// A placeholder signature that no verification accepts.
    pub fn fake() -> (r: Signature)
        ensures
            r@ == "fake-signature"@,
    {
        Signature::from("fake-signature")
    }
}

impl Clone for Signature {
    fn clone(&self) -> (r: Self)
        ensures
            r == *self,
    {
        Signature(self.0.clone())
    }
}

impl PartialEq for Signature {
    fn eq(&self, other: &Signature) -> (r: bool) {
        self.0 == other.0
    }
}

impl vstd::std_specs::cmp::PartialEqSpecImpl for Signature {
    open spec fn obeys_eq_spec() -> bool {
        true
    }

    open spec fn eq_spec(&self, other: &Signature) -> bool {
        self@ == other@
    }
}

/// The claimed origin of a request: a source address and a signature that
/// must verify against it.
#[derive(Debug)]
pub struct Provenance {
    pub source: Address,
    pub signature: Signature,
}

/// The mathematical content of a [`Provenance`].
pub struct ProvenanceModel {
    pub source: Seq<char>,
    pub signature: Seq<char>,
}

impl View for Provenance {
    type V = ProvenanceModel;

    open spec fn view(&self) -> ProvenanceModel {
        ProvenanceModel { source: self.source@, signature: self.signature@ }
    }
}

impl DeepView for Provenance {
    type V = ProvenanceModel;

    open spec fn deep_view(&self) -> ProvenanceModel {
        self@
    }
}

impl Provenance {
    /// Builds a provenance from its parts.
    pub fn new(source: Address, signature: Signature) -> (r: Provenance)
        ensures
            r@.source == source@,
            r@.signature == signature@,
    {
        Provenance { source, signature }
    }

    /// The claimed source address.
    pub fn source(&self) -> (r: Address)
        ensures
            r@ == self@.source,
    {
        self.source.clone()
    }

    /// The carried signature.
    pub fn signature(&self) -> (r: Signature)
        ensures
            r@ == self@.signature,
    {
        self.signature.clone()
    }
}

impl Clone for Provenance {
    fn clone(&self) -> (r: Self)
        ensures
            r == *self,
    {
        Provenance { source: self.source.clone(), signature: self.signature.clone() }
    }
}

} // verus!
