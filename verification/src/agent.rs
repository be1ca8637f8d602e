//! Agent identity.
//!
//! An agent is identified by its public signing key; the key rendered as a
//! string is also the agent's chain address.

use vstd::prelude::*;

use crate::address::Address;

verus! {

/// The local agent's identity: a nickname and the public signing key.
#[derive(Debug, PartialEq, Eq)]
pub struct AgentId {
    pub nick: String,
    pub pub_sign_key: String,
}

/// The mathematical content of an [`AgentId`].
pub struct AgentIdModel {
    pub nick: Seq<char>,
    pub pub_sign_key: Seq<char>,
}

impl View for AgentId {
    type V = AgentIdModel;

    open spec fn view(&self) -> AgentIdModel {
        AgentIdModel { nick: self.nick@, pub_sign_key: self.pub_sign_key@ }
    }
}

impl AgentId {
    /// Builds an identity from a nickname and a public signing key.
    pub fn new(nick: &str, pub_sign_key: &str) -> (r: AgentId)
        ensures
            r@.nick == nick@,
            r@.pub_sign_key == pub_sign_key@,
    {
        AgentId { nick: String::from_str(nick), pub_sign_key: String::from_str(pub_sign_key) }
    }

    /// The agent's chain address: its public signing key.
    pub fn address(&self) -> (r: Address)
        ensures
            r@ == self@.pub_sign_key,
    {
        Address(self.pub_sign_key.clone())
    }
}

impl Clone for AgentId {
    fn clone(&self) -> (r: Self)
        ensures
            r == *self,
    {
        AgentId { nick: self.nick.clone(), pub_sign_key: self.pub_sign_key.clone() }
    }
}

} // verus!
