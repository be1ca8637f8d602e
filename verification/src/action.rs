//! Actions: the closed set of system mutations.
//!
//! Every mutation of shared state is an [`Action`] value dispatched into one
//! serialized FIFO channel and consumed by a single reducer.  The action
//! stream is also the sole input of the consistency model.  Adding a kind is
//! a compile-time, exhaustiveness-checked change.

use vstd::prelude::*;

use crate::address::Address;
use crate::entry::{Entry, EntryModel, LinkData, LinkModel};
use crate::signature::{Provenance, ProvenanceModel};
use crate::zome_call::{
    ExecuteZomeFnResponse, ExecuteZomeFnResponseModel, ZomeFnCall, ZomeFnCallModel,
};

verus! {

/// The mathematical content of a [`ChainHeader`].
pub struct ChainHeaderModel {
    pub entry_address: Seq<char>,
}

/// The part of a chain header the core reads: which entry it heads.
#[derive(Debug)]
pub struct ChainHeader {
    pub entry_address: Address,
}

impl View for ChainHeader {
    type V = ChainHeaderModel;

    open spec fn view(&self) -> ChainHeaderModel {
        ChainHeaderModel { entry_address: self.entry_address@ }
    }
}

impl Clone for ChainHeader {
    fn clone(&self) -> (r: Self)
        ensures
            r == *self,
    {
        ChainHeader { entry_address: self.entry_address.clone() }
    }
}

/// The mathematical content of an [`EntryWithHeader`].
pub struct EntryWithHeaderModel {
    pub entry: EntryModel,
    pub header: ChainHeaderModel,
}

/// An entry paired with the chain header under which it was authored.
#[derive(Debug)]
pub struct EntryWithHeader {
    pub entry: Entry,
    pub header: ChainHeader,
}

impl View for EntryWithHeader {
    type V = EntryWithHeaderModel;

    open spec fn view(&self) -> EntryWithHeaderModel {
        EntryWithHeaderModel { entry: self.entry@, header: self.header@ }
    }
}

impl Clone for EntryWithHeader {
    fn clone(&self) -> (r: Self)
        ensures
            r@ == self@,
    {
        EntryWithHeader { entry: self.entry.clone(), header: self.header.clone() }
    }
}

/// Which validation workflow a pending validation belongs to.
#[derive(Debug, Clone, Copy, PartialEq, Eq, Structural)]
pub enum ValidatingWorkflow {
    HoldEntry,
    HoldLink,
    RemoveLink,
    UpdateEntry,
    RemoveEntry,
}

/// The mathematical content of a [`PendingValidation`].
pub struct PendingValidationModel {
    pub entry_with_header: EntryWithHeaderModel,
    pub dependencies: Seq<Seq<char>>,
    pub workflow: ValidatingWorkflow,
}

/// A validation the node has started but not finished: the entry under
/// validation, the addresses it depends on, and its workflow.
#[derive(Debug)]
pub struct PendingValidation {
    pub entry_with_header: EntryWithHeader,
    pub dependencies: Vec<Address>,
    pub workflow: ValidatingWorkflow,
}

impl View for PendingValidation {
    type V = PendingValidationModel;

    open spec fn view(&self) -> PendingValidationModel {
        PendingValidationModel {
            entry_with_header: self.entry_with_header@,
            dependencies: self.dependencies.deep_view(),
            workflow: self.workflow,
        }
    }
}

impl Clone for PendingValidation {
    fn clone(&self) -> (r: Self)
        ensures
            r@ == self@,
    {
        PendingValidation {
            entry_with_header: self.entry_with_header.clone(),
            dependencies: crate::cap::clone_address_vec(&self.dependencies),
            workflow: self.workflow,
        }
    }
}

/// The mathematical content of an [`Action`].
pub enum ActionModel {
    Commit((EntryModel, Option<Seq<char>>, Seq<ProvenanceModel>)),
    Publish(Seq<char>),
    Hold(EntryWithHeaderModel),
    UpdateEntry((Seq<char>, Seq<char>)),
    RemoveEntry((Seq<char>, Seq<char>)),
    AddLink(LinkModel),
    RemoveLink(EntryModel),
    AddPendingValidation(PendingValidationModel),
    RemovePendingValidation((Seq<char>, ValidatingWorkflow)),
    SignalZomeFunctionCall(ZomeFnCallModel),
    ReturnZomeFunctionResult(ExecuteZomeFnResponseModel),
    ResolveDirectConnection(Seq<char>),
    ShutdownNetwork,
}

/// A system mutation.  Immutable once built; the sole input of the
/// consistency model and the sole unit of state mutation.
#[derive(Debug)]
pub enum Action {
    /// An entry was committed to the local chain, with its crud-link (the
    /// entry it updates or deletes, if any) and the authoring provenances.
    Commit((Entry, Option<Address>, Vec<Provenance>)),
    /// A locally committed entry was handed to the DHT.
    Publish(Address),
    /// A peer's published entry is now held locally.
    Hold(EntryWithHeader),
    /// An entry was updated: old address, new address.
    UpdateEntry((Address, Address)),
    /// An entry was removed: old address, deletion address.
    RemoveEntry((Address, Address)),
    /// A link was added.
    AddLink(LinkData),
    /// A link-remove entry arrived; carries the whole entry.
    RemoveLink(Entry),
    /// A validation began and is outstanding.
    AddPendingValidation(PendingValidation),
    /// An outstanding validation finished, keyed by address and workflow.
    RemovePendingValidation((Address, ValidatingWorkflow)),
    /// A zome function call passed its checks and is about to execute.
    SignalZomeFunctionCall(ZomeFnCall),
    /// A zome function execution finished with a result.
    ReturnZomeFunctionResult(ExecuteZomeFnResponse),
    /// A node-to-node conversation was answered; outside the consistency
    /// model's table.
    ResolveDirectConnection(String),
    /// The network layer is detaching; outside the consistency model's
    /// table.
    ShutdownNetwork,
}

impl View for Action {
    type V = ActionModel;

    open spec fn view(&self) -> ActionModel {
        match self {
            Action::Commit((entry, crud_link, provenances)) => ActionModel::Commit(
                ((entry@, crud_link.deep_view(), provenances.deep_view())),
            ),
            Action::Publish(address) => ActionModel::Publish(address@),
            Action::Hold(ewh) => ActionModel::Hold(ewh@),
            Action::UpdateEntry((old_address, new_address)) => ActionModel::UpdateEntry(
                ((old_address@, new_address@)),
            ),
            Action::RemoveEntry((old_address, new_address)) => ActionModel::RemoveEntry(
                ((old_address@, new_address@)),
            ),
            Action::AddLink(link) => ActionModel::AddLink(link@),
            Action::RemoveLink(entry) => ActionModel::RemoveLink(entry@),
            Action::AddPendingValidation(pending) => ActionModel::AddPendingValidation(pending@),
            Action::RemovePendingValidation((address, workflow)) => {
                ActionModel::RemovePendingValidation(((address@, *workflow)))
            },
            Action::SignalZomeFunctionCall(call) => ActionModel::SignalZomeFunctionCall(call@),
            Action::ReturnZomeFunctionResult(response) => ActionModel::ReturnZomeFunctionResult(
                response@,
            ),
            Action::ResolveDirectConnection(id) => ActionModel::ResolveDirectConnection(id@),
            Action::ShutdownNetwork => ActionModel::ShutdownNetwork,
        }
    }
}

/// The mathematical content of an [`ActionWrapper`].
pub struct ActionWrapperModel {
    pub id: Seq<char>,
    pub action: ActionModel,
}

/// An action tagged with a process-unique dispatch id, so that the ledger
/// of dispatched actions can key responses to them.
#[derive(Debug)]
pub struct ActionWrapper {
    pub id: String,
    pub action: Action,
}

impl View for ActionWrapper {
    type V = ActionWrapperModel;

    open spec fn view(&self) -> ActionWrapperModel {
        ActionWrapperModel { id: self.id@, action: self.action@ }
    }
}

impl DeepView for ActionWrapper {
    type V = ActionWrapperModel;

    open spec fn deep_view(&self) -> ActionWrapperModel {
        self@
    }
}

impl ActionWrapper {
    /// Wraps an action under a fresh process-unique dispatch id.
    pub fn new(action: Action) -> (r: ActionWrapper)
        ensures
            r@.action == action@,
    {
        ActionWrapper { id: crate::zome_call::fresh_process_unique_id(), action }
    }
}

} // verus!
