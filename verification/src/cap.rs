//! Capability grants and capability requests.
//!
//! A grant is a chain entry, authored by the authorizing agent, that binds a
//! token to a kind (`Public`: any caller; `Transferable`: any holder of the
//! token; `Assigned`: only listed addresses) and to the set of zome functions
//! it authorizes.  A request carries a token and the caller's provenance.

use vstd::prelude::*;

use crate::address::Address;
use crate::error::{HcResult, HolochainError};
use crate::signature::{Provenance, ProvenanceModel, Signature};

verus! {

/// The kind of a capability grant.
#[derive(Debug, Clone, Copy, PartialEq, Eq, Structural)]
pub enum CapabilityType {
    /// Any caller is admitted.
    Public,
    /// Any holder of the token is admitted.
    Transferable,
    /// Only the listed assignees are admitted.
    Assigned,
}

/// Clones a vector of strings, keeping its contents.
pub fn clone_string_vec(v: &Vec<String>) -> (r: Vec<String>)
    ensures
        r.deep_view() == v.deep_view(),
{
    let mut out: Vec<String> = Vec::new();
    let n = v.len();
    let mut i: usize = 0;
    while i < n
        invariant
            n == v.len(),
            i <= n,
            out@.len() == i,
            forall|j: int| 0 <= j < i ==> out@[j] == v@[j],
        decreases n - i,
    {
        out.push(v[i].clone());
        i = i + 1;
    }
    proof {
        assert(out.deep_view() =~= v.deep_view());
    }
    out
}

/// The functions a grant authorizes, grouped by zome name.
///
/// A newer entry for a zome shadows an older one, so the structure behaves
/// as a map from zome name to function list.
#[derive(Debug, PartialEq, Eq)]
pub struct CapFunctions {
    entries: Vec<(String, Vec<String>)>,
}

impl Clone for CapFunctions {
    fn clone(&self) -> (r: Self)
        ensures
            r@ == self@,
    {
        let mut out: Vec<(String, Vec<String>)> = Vec::new();
        let n = self.entries.len();
        let mut i: usize = 0;
        while i < n
            invariant
                n == self.entries.len(),
                i <= n,
                out@.len() == i,
                forall|j: int|
                    0 <= j < i ==> #[trigger] out.deep_view()[j] == self.entries.deep_view()[j],
            decreases n - i,
        {
            let name = self.entries[i].0.clone();
            let functions = clone_string_vec(&self.entries[i].1);
            let ghost prev_at = out@;
            let ghost prev_dv = out.deep_view();
            out.push((name, functions));
            proof {
                assert forall|j: int|
                    0 <= j < i + 1 implies #[trigger] out.deep_view()[j]
                    == self.entries.deep_view()[j] by {
                    assert(out.deep_view()[j] == out@[j].deep_view());
                    if j < i {
                        assert(out@[j] == prev_at[j]);
                        assert(prev_dv[j] == prev_at[j].deep_view());
                        assert(prev_dv[j] == self.entries.deep_view()[j]);
                    } else {
                        assert(out@[j].0@ == self.entries@[j].0@);
                        assert(out@[j].1.deep_view() == self.entries@[j].1.deep_view());
                    }
                }
            }
            i = i + 1;
        }
        proof {
            assert(out.deep_view() =~= self.entries.deep_view());
        }
        CapFunctions { entries: out }
    }
}

impl View for CapFunctions {
    type V = Seq<(Seq<char>, Seq<Seq<char>>)>;

    closed spec fn view(&self) -> Seq<(Seq<char>, Seq<Seq<char>>)> {
        self.entries.deep_view()
    }
}

/// Whether the zome name has an entry.
pub open spec fn cf_contains(cf: Seq<(Seq<char>, Seq<Seq<char>>)>, zome: Seq<char>) -> bool {
    exists|i: int| 0 <= i < cf.len() && cf[i].0 == zome
}

/// The function list of the first (most recent) entry for the zome name.
pub open spec fn cf_lookup(cf: Seq<(Seq<char>, Seq<Seq<char>>)>, zome: Seq<char>) -> Seq<
    Seq<char>,
>
    decreases cf.len(),
{
    if cf.len() == 0 {
        Seq::empty()
    } else if cf[0].0 == zome {
        cf[0].1
    } else {
        cf_lookup(cf.subrange(1, cf.len() as int), zome)
    }
}

impl CapFunctions {
    /// An empty authorization set.
    pub fn new() -> (r: CapFunctions)
        ensures
            r@ == Seq::<(Seq<char>, Seq<Seq<char>>)>::empty(),
    {
        CapFunctions { entries: Vec::new() }
    }

    /// Authorizes the named functions of a zome, shadowing any earlier entry
    /// for the same zome name.
    pub fn insert(&mut self, zome: String, functions: Vec<String>)
        ensures
            final(self)@ == seq![(zome@, functions.deep_view())] + old(self)@,
            cf_lookup(final(self)@, zome@) == functions.deep_view(),
            cf_contains(final(self)@, zome@),
            forall|z: Seq<char>|
                z != zome@ ==> cf_lookup(final(self)@, z) == cf_lookup(old(self)@, z),
            forall|z: Seq<char>|
                z != zome@ ==> (cf_contains(final(self)@, z) <==> cf_contains(old(self)@, z)),
    {
        self.entries.insert(0, (zome, functions));
        proof {
            assert(self.entries.deep_view() =~= seq![
                (self.entries@[0].0@, self.entries@[0].1.deep_view()),
            ] + old(self).entries.deep_view());
            assert(self@[0].0 == self.entries@[0].0@);
            assert(cf_lookup(self@, self.entries@[0].0@) == self@[0].1);
            assert(final(self)@.subrange(1, final(self)@.len() as int) =~= old(self)@);
            assert forall|z: Seq<char>|
                z != self.entries@[0].0@ implies cf_lookup(final(self)@, z) == cf_lookup(
                old(self)@,
                z,
            ) by {
                assert(final(self)@.subrange(1, final(self)@.len() as int) =~= old(self)@);
            }
            assert forall|z: Seq<char>|
                z != self.entries@[0].0@ && cf_contains(old(self)@, z) implies cf_contains(
                final(self)@,
                z,
            ) by {
                let i = choose|i: int| 0 <= i < old(self)@.len() && old(self)@[i].0 == z;
                assert(final(self)@[i + 1].0 == z);
            }
            assert forall|z: Seq<char>|
                z != self.entries@[0].0@ && cf_contains(final(self)@, z) implies cf_contains(
                old(self)@,
                z,
            ) by {
                let i = choose|i: int| 0 <= i < final(self)@.len() && final(self)@[i].0 == z;
                assert(old(self)@[i - 1].0 == z);
            }
        }
    }

    /// The function list for a zome name, if any entry exists.
    pub fn get(&self, zome: &String) -> (r: Option<&Vec<String>>)
        ensures
            match r {
                Some(functions) => cf_contains(self@, zome@) && functions.deep_view() == cf_lookup(
                    self@,
                    zome@,
                ),
                None => !cf_contains(self@, zome@),
            },
    {
        let n = self.entries.len();
        let mut i: usize = 0;
        proof {
            assert(self@.subrange(0, n as int) =~= self@);
        }
        while i < n
            invariant
                n == self.entries.len(),
                i <= n,
                self@.len() == n,
                forall|j: int| 0 <= j < i ==> #[trigger] self@[j].0 != zome@,
                cf_lookup(self@, zome@) == cf_lookup(self@.subrange(i as int, n as int), zome@),
            decreases n - i,
        {
            proof {
                assert(self@[i as int] == (self.entries@[i as int].0@,
                self.entries@[i as int].1.deep_view()));
            }
            if self.entries[i].0 == *zome {
                proof {
                    assert(self@.subrange(i as int, n as int)[0].0 == zome@);
                }
                return Some(&self.entries[i].1);
            }
            proof {
                assert(self@.subrange(i as int, n as int).subrange(
                    1,
                    (n - i) as int,
                ) =~= self@.subrange(i + 1, n as int));
            }
            i = i + 1;
        }
        proof {
            assert(self@.subrange(n as int, n as int) =~= Seq::<
                (Seq<char>, Seq<Seq<char>>),
            >::empty());
        }
        None
    }
}

/// The mathematical content of a [`CapTokenGrant`].
pub struct GrantModel {
    pub id: Seq<char>,
    pub cap_type: CapabilityType,
    pub assignees: Option<Seq<Seq<char>>>,
    pub functions: Seq<(Seq<char>, Seq<Seq<char>>)>,
}

/// A capability grant: a chain entry binding a token to a kind and to the
/// zome functions it authorizes.
///
/// In this model a grant's token is its identifier rendered as an address;
/// deriving one by content addressing is the persistence layer's business.
#[derive(Debug, PartialEq, Eq)]
pub struct CapTokenGrant {
    id: String,
    cap_type: CapabilityType,
    assignees: Option<Vec<Address>>,
    functions: CapFunctions,
}

/// Clones a vector of addresses, keeping its contents.
pub fn clone_address_vec(v: &Vec<Address>) -> (r: Vec<Address>)
    ensures
        r.deep_view() == v.deep_view(),
{
    let mut out: Vec<Address> = Vec::new();
    let n = v.len();
    let mut i: usize = 0;
    while i < n
        invariant
            n == v.len(),
            i <= n,
            out@.len() == i,
            forall|j: int| 0 <= j < i ==> out@[j] == v@[j],
        decreases n - i,
    {
        out.push(v[i].clone());
        i = i + 1;
    }
    proof {
        assert(out.deep_view() =~= v.deep_view());
    }
    out
}

impl Clone for CapTokenGrant {
    fn clone(&self) -> (r: Self)
        ensures
            r@ == self@,
    {
        let assignees = match &self.assignees {
            Some(list) => Some(clone_address_vec(list)),
            None => None,
        };
        CapTokenGrant {
            id: self.id.clone(),
            cap_type: self.cap_type,
            assignees,
            functions: self.functions.clone(),
        }
    }
}

impl View for CapTokenGrant {
    type V = GrantModel;

    closed spec fn view(&self) -> GrantModel {
        GrantModel {
            id: self.id@,
            cap_type: self.cap_type,
            assignees: self.assignees.deep_view(),
            functions: self.functions@,
        }
    }
}

impl CapTokenGrant {
    /// Builds a grant, checking that the assignee list fits the kind: an
    /// `Assigned` grant must name at least one assignee, any other kind must
    /// name none.
    pub fn create(
        id: &str,
        cap_type: CapabilityType,
        assignees: Option<Vec<Address>>,
        functions: CapFunctions,
    ) -> (r: HcResult<CapTokenGrant>)
        ensures
            match r {
                Ok(grant) => grant@ == (GrantModel {
                    id: id@,
                    cap_type: cap_type,
                    assignees: assignees.deep_view(),
                    functions: functions@,
                }) && grant_shape_ok(cap_type, assignees.deep_view()),
                Err(e) => !grant_shape_ok(cap_type, assignees.deep_view()) && (e
                    matches HolochainError::ErrorGeneric(msg) && msg@
                    == "assignees must match the capability type"@),
            },
    {
        let shape_ok = match cap_type {
            CapabilityType::Assigned => match &assignees {
                Some(list) => list.len() > 0,
                None => false,
            },
            _ => match &assignees {
                Some(list) => list.len() == 0,
                None => true,
            },
        };
        if !shape_ok {
            return Err(
                HolochainError::ErrorGeneric(
                    String::from_str("assignees must match the capability type"),
                ),
            );
        }
        Ok(CapTokenGrant { id: String::from_str(id), cap_type, assignees, functions })
    }

    /// The grant's token: its identifier as an address.
    pub fn token(&self) -> (r: Address)
        ensures
            r@ == self@.id,
    {
        Address(self.id.clone())
    }

    /// The grant's kind.
    pub fn cap_type(&self) -> (r: CapabilityType)
        ensures
            r == self@.cap_type,
    {
        self.cap_type
    }

    /// The assignee list, where the kind has one.
    pub fn assignees(&self) -> (r: &Option<Vec<Address>>)
        ensures
            r.deep_view() == self@.assignees,
    {
        &self.assignees
    }

    /// The functions the grant authorizes.
    pub fn functions(&self) -> (r: &CapFunctions)
        ensures
            r@ == self@.functions,
    {
        &self.functions
    }
}

/// Whether an assignee list fits a grant kind.
pub open spec fn grant_shape_ok(
    cap_type: CapabilityType,
    assignees: Option<Seq<Seq<char>>>,
) -> bool {
    match cap_type {
        CapabilityType::Assigned => assignees matches Some(list) && list.len() > 0,
        _ => assignees matches Some(list) ==> list.len() == 0,
    }
}

/// The mathematical content of a [`CapabilityRequest`].
pub struct CapabilityRequestModel {
    pub cap_token: Seq<char>,
    pub provenance: ProvenanceModel,
}

/// A capability request: the token a caller presents and the caller's
/// provenance (claimed source address plus signature over what is called).
#[derive(Debug)]
pub struct CapabilityRequest {
    pub cap_token: Address,
    pub provenance: Provenance,
}

impl View for CapabilityRequest {
    type V = CapabilityRequestModel;

    open spec fn view(&self) -> CapabilityRequestModel {
        CapabilityRequestModel { cap_token: self.cap_token@, provenance: self.provenance@ }
    }
}

impl CapabilityRequest {
    /// Builds a request from its parts.
    pub fn new(token: Address, requester: Address, signature: Signature) -> (r: CapabilityRequest)
        ensures
            r@.cap_token == token@,
            r@.provenance.source == requester@,
            r@.provenance.signature == signature@,
    {
        CapabilityRequest { cap_token: token, provenance: Provenance::new(requester, signature) }
    }
}

impl Clone for CapabilityRequest {
    fn clone(&self) -> (r: Self)
        ensures
            r == *self,
    {
        CapabilityRequest { cap_token: self.cap_token.clone(), provenance: self.provenance.clone() }
    }
}

} // verus!
