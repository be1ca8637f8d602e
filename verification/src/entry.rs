//! Chain entries.
//!
//! An entry is the unit of content an agent authors to its chain.  The model
//! carries each entry's address as data: deriving an address from content is
//! the persistence layer's hashing, out of the core's scope, while every
//! decision the core makes reads only the address and the entry's kind.

use vstd::prelude::*;

use crate::address::Address;
use crate::agent::{AgentId, AgentIdModel};
use crate::cap::{CapTokenGrant, GrantModel};
use crate::dna::{Dna, DnaModel};
use crate::json::JsonString;

verus! {

/// The mathematical content of a [`LinkData`].
pub struct LinkModel {
    pub base: Seq<char>,
    pub target: Seq<char>,
    pub link_type: Seq<char>,
    pub tag: Seq<char>,
}

/// A link between two addressed entries, as carried by link-add and
/// link-remove entries.
#[derive(Debug, PartialEq, Eq)]
pub struct LinkData {
    pub base: Address,
    pub target: Address,
    pub link_type: String,
    pub tag: String,
}

impl View for LinkData {
    type V = LinkModel;

    open spec fn view(&self) -> LinkModel {
        LinkModel {
            base: self.base@,
            target: self.target@,
            link_type: self.link_type@,
            tag: self.tag@,
        }
    }
}

impl Clone for LinkData {
    fn clone(&self) -> (r: Self)
        ensures
            r == *self,
    {
        LinkData {
            base: self.base.clone(),
            target: self.target.clone(),
            link_type: self.link_type.clone(),
            tag: self.tag.clone(),
        }
    }
}

/// The mathematical content of an [`EntryContent`].
pub enum EntryContentModel {
    /// The local agent's identity entry.
    AgentId(AgentIdModel),
    /// An app entry: its type name and its JSON value.
    App(Seq<char>, Seq<char>),
    /// A deletion entry naming the deleted entry's address.
    Deletion(Seq<char>),
    /// A link-add entry.
    LinkAdd(LinkModel),
    /// A link-remove entry.
    LinkRemove(LinkModel),
    /// A capability grant entry.
    CapTokenGrant(GrantModel),
    /// The DNA entry, by name.
    Dna(Seq<char>),
    /// A chain header entry naming the entry it headed.
    ChainHeader(Seq<char>),
}

/// What an entry holds, by kind.
#[derive(Debug, PartialEq, Eq)]
pub enum EntryContent {
    /// The local agent's identity entry.
    AgentId(AgentId),
    /// An app entry: its type name and its JSON value.
    App(String, JsonString),
    /// A deletion entry naming the deleted entry's address.
    Deletion(Address),
    /// A link-add entry.
    LinkAdd(LinkData),
    /// A link-remove entry.
    LinkRemove(LinkData),
    /// A capability grant entry.
    CapTokenGrant(CapTokenGrant),
    /// The DNA entry, by name.
    Dna(String),
    /// A chain header entry naming the entry it headed.
    ChainHeader(Address),
}

impl View for EntryContent {
    type V = EntryContentModel;

    open spec fn view(&self) -> EntryContentModel {
        match self {
            EntryContent::AgentId(a) => EntryContentModel::AgentId(a@),
            EntryContent::App(t, v) => EntryContentModel::App(t@, v@),
            EntryContent::Deletion(a) => EntryContentModel::Deletion(a@),
            EntryContent::LinkAdd(l) => EntryContentModel::LinkAdd(l@),
            EntryContent::LinkRemove(l) => EntryContentModel::LinkRemove(l@),
            EntryContent::CapTokenGrant(g) => EntryContentModel::CapTokenGrant(g@),
            EntryContent::Dna(n) => EntryContentModel::Dna(n@),
            EntryContent::ChainHeader(a) => EntryContentModel::ChainHeader(a@),
        }
    }
}

impl Clone for EntryContent {
    fn clone(&self) -> (r: Self)
        ensures
            r@ == self@,
    {
        match self {
            EntryContent::AgentId(a) => EntryContent::AgentId(a.clone()),
            EntryContent::App(t, v) => EntryContent::App(t.clone(), v.clone()),
            EntryContent::Deletion(a) => EntryContent::Deletion(a.clone()),
            EntryContent::LinkAdd(l) => EntryContent::LinkAdd(l.clone()),
            EntryContent::LinkRemove(l) => EntryContent::LinkRemove(l.clone()),
            EntryContent::CapTokenGrant(g) => EntryContent::CapTokenGrant(g.clone()),
            EntryContent::Dna(n) => EntryContent::Dna(n.clone()),
            EntryContent::ChainHeader(a) => EntryContent::ChainHeader(a.clone()),
        }
    }
}

/// The mathematical content of an [`Entry`].
pub struct EntryModel {
    pub address: Seq<char>,
    pub content: EntryContentModel,
}

/// A chain entry: its content address and its content.
#[derive(Debug, PartialEq, Eq)]
pub struct Entry {
    pub address: Address,
    pub content: EntryContent,
}

impl View for Entry {
    type V = EntryModel;

    open spec fn view(&self) -> EntryModel {
        EntryModel { address: self.address@, content: self.content@ }
    }
}

impl DeepView for Entry {
    type V = EntryModel;

    open spec fn deep_view(&self) -> EntryModel {
        self@
    }
}

impl Clone for Entry {
    fn clone(&self) -> (r: Self)
        ensures
            r@ == self@,
    {
        Entry { address: self.address.clone(), content: self.content.clone() }
    }
}

impl Entry {
    /// Builds an entry from its address and content.
    pub fn new(address: Address, content: EntryContent) -> (r: Entry)
        ensures
            r@.address == address@,
            r@.content == content@,
    {
        Entry { address, content }
    }

    /// The entry's content address.
    pub fn address(&self) -> (r: Address)
        ensures
            r@ == self@.address,
    {
        self.address.clone()
    }
}

/// Whether an entry of this kind is published to the DHT: app entries go by
/// their type's sharing in the DNA; identity, deletion and link entries are
/// public by design; the DNA entry, chain headers and capability grants stay
/// private to the authoring chain.
pub open spec fn content_can_publish(c: EntryContentModel, d: DnaModel) -> bool {
    match c {
        EntryContentModel::AgentId(_) => true,
        EntryContentModel::App(app_type, _) => crate::dna::dna_app_entry_type_is_public(
            d,
            app_type,
        ),
        EntryContentModel::Deletion(_) => true,
        EntryContentModel::LinkAdd(_) => true,
        EntryContentModel::LinkRemove(_) => true,
        EntryContentModel::CapTokenGrant(_) => false,
        EntryContentModel::Dna(_) => false,
        EntryContentModel::ChainHeader(_) => false,
    }
}

impl EntryContent {
    /// Whether an entry with this content is published to the DHT, under the
    /// given DNA.
    pub fn can_publish(&self, dna: &Dna) -> (r: bool)
        ensures
            r == content_can_publish(self@, dna@),
    {
        match self {
            EntryContent::AgentId(_) => true,
            EntryContent::App(app_type, _) => dna.app_entry_type_is_public(app_type),
            EntryContent::Deletion(_) => true,
            EntryContent::LinkAdd(_) => true,
            EntryContent::LinkRemove(_) => true,
            EntryContent::CapTokenGrant(_) => false,
            EntryContent::Dna(_) => false,
            EntryContent::ChainHeader(_) => false,
        }
    }
}

} // verus!
