//! Read-only snapshots of instance state.
//!
//! One reducer is the sole writer of shared state; every other component
//! reads immutable snapshots shaped like these types.  A [`Context`] is
//! what such a reader holds: the local agent's identity and the snapshot,
//! if state exists yet.

use vstd::prelude::*;

use crate::address::Address;
use crate::agent::{AgentId, AgentIdModel};
use crate::dna::{Dna, DnaModel};
use crate::entry::{Entry, EntryModel};
use crate::error::{result_view, ErrorModel, HolochainError};
use crate::json::JsonString;
use crate::network::{NetworkState, NetworkStateModel};
use crate::zome_call::{clone_zome_fn_result, ZomeFnCall};

verus! {

/// The mathematical content of a [`NucleusState`].
pub struct NucleusStateModel {
    pub dna: Option<DnaModel>,
    pub zome_call_results: Seq<(Seq<char>, Result<Seq<char>, ErrorModel>)>,
}

/// The nucleus: the installed DNA and the results of finished zome function
/// calls, keyed by call id.
#[derive(Debug)]
pub struct NucleusState {
    pub dna: Option<Dna>,
    pub zome_call_results: Vec<(String, Result<JsonString, HolochainError>)>,
}

impl View for NucleusState {
    type V = NucleusStateModel;

    open spec fn view(&self) -> NucleusStateModel {
        NucleusStateModel {
            dna: match &self.dna {
                Some(dna) => Some(dna@),
                None => None,
            },
            zome_call_results: Seq::new(
                self.zome_call_results@.len(),
                |i: int|
                    (
                        self.zome_call_results@[i].0@,
                        result_view(self.zome_call_results@[i].1),
                    ),
            ),
        }
    }
}

/// Whether a result is recorded for the call id.
pub open spec fn results_has(
    entries: Seq<(Seq<char>, Result<Seq<char>, ErrorModel>)>,
    id: Seq<char>,
) -> bool {
    exists|i: int| 0 <= i < entries.len() && entries[i].0 == id
}

/// The first recorded result for the call id.
pub open spec fn results_lookup(
    entries: Seq<(Seq<char>, Result<Seq<char>, ErrorModel>)>,
    id: Seq<char>,
) -> Result<Seq<char>, ErrorModel>
    decreases entries.len(),
{
    if entries.len() == 0 {
        Ok(Seq::empty())
    } else if entries[0].0 == id {
        entries[0].1
    } else {
        results_lookup(entries.subrange(1, entries.len() as int), id)
    }
}

impl NucleusState {
    /// A nucleus with nothing installed and nothing finished.
    pub fn new() -> (r: NucleusState)
        ensures
            r@.dna is None,
            r@.zome_call_results.len() == 0,
    {
        NucleusState { dna: None, zome_call_results: Vec::new() }
    }

    /// The installed DNA, if one exists.
    pub fn dna(&self) -> (r: Option<&Dna>)
        ensures
            match r {
                Some(dna) => self@.dna == Some(dna@),
                None => self@.dna is None,
            },
    {
        match &self.dna {
            Some(dna) => Some(dna),
            None => None,
        }
    }

    /// The result recorded for this call, if its execution has finished.
    pub fn zome_call_result(&self, call: &ZomeFnCall) -> (r: Option<
        Result<JsonString, HolochainError>,
    >)
        ensures
            match r {
                Some(result) => results_has(self@.zome_call_results, call@.id) && result_view(
                    result,
                ) == results_lookup(self@.zome_call_results, call@.id),
                None => !results_has(self@.zome_call_results, call@.id),
            },
    {
        let n = self.zome_call_results.len();
        let mut i: usize = 0;
        proof {
            assert(self@.zome_call_results.subrange(0, n as int) =~= self@.zome_call_results);
        }
        while i < n
            invariant
                n == self.zome_call_results.len(),
                i <= n,
                self@.zome_call_results.len() == n,
                forall|j: int| 0 <= j < i ==> #[trigger] self@.zome_call_results[j].0 != call@.id,
                results_lookup(self@.zome_call_results, call@.id) == results_lookup(
                    self@.zome_call_results.subrange(i as int, n as int),
                    call@.id,
                ),
            decreases n - i,
        {
            proof {
                assert(self@.zome_call_results[i as int] == (self.zome_call_results@[i as int].0@,
                result_view(self.zome_call_results@[i as int].1)));
            }
            if self.zome_call_results[i].0 == call.id {
                proof {
                    assert(self@.zome_call_results.subrange(i as int, n as int)[0].0 == call@.id);
                }
                return Some(clone_zome_fn_result(&self.zome_call_results[i].1));
            }
            proof {
                assert(self@.zome_call_results.subrange(i as int, n as int).subrange(
                    1,
                    (n - i) as int,
                ) =~= self@.zome_call_results.subrange(i + 1, n as int));
            }
            i = i + 1;
        }
        None
    }
}

/// The mathematical content of a [`State`].
pub struct StateModel {
    pub nucleus: NucleusStateModel,
    pub agent_chain: Seq<EntryModel>,
    pub network: NetworkStateModel,
}

/// One snapshot of the instance's shared state.
#[derive(Debug)]
pub struct State {
    pub nucleus: NucleusState,
    pub agent_chain: Vec<Entry>,
    pub network: NetworkState,
}

impl View for State {
    type V = StateModel;

    open spec fn view(&self) -> StateModel {
        StateModel {
            nucleus: self.nucleus@,
            agent_chain: self.agent_chain.deep_view(),
            network: self.network@,
        }
    }
}

/// Whether the chain holds an entry at the address.
pub open spec fn chain_has(chain: Seq<EntryModel>, address: Seq<char>) -> bool {
    exists|i: int| 0 <= i < chain.len() && chain[i].address == address
}

/// The first chain entry at the address.
pub open spec fn chain_lookup(chain: Seq<EntryModel>, address: Seq<char>) -> EntryModel
    decreases chain.len(),
{
    if chain.len() == 0 {
        EntryModel { address: address, content: crate::entry::EntryContentModel::Dna(Seq::empty()) }
    } else if chain[0].address == address {
        chain[0]
    } else {
        chain_lookup(chain.subrange(1, chain.len() as int), address)
    }
}

impl State {
    /// The nucleus of this snapshot.
    pub fn nucleus(&self) -> (r: &NucleusState)
        ensures
            r@ == self@.nucleus,
    {
        &self.nucleus
    }

    /// The network ledger of this snapshot.
    pub fn network(&self) -> (r: &NetworkState)
        ensures
            r@ == self@.network,
    {
        &self.network
    }

    /// The entry the local agent authored at the address, if any.
    pub fn get_entry_from_agent_chain(&self, address: &Address) -> (r: Option<&Entry>)
        ensures
            match r {
                Some(entry) => chain_has(self@.agent_chain, address@) && entry@ == chain_lookup(
                    self@.agent_chain,
                    address@,
                ),
                None => !chain_has(self@.agent_chain, address@),
            },
    {
        let n = self.agent_chain.len();
        let mut i: usize = 0;
        proof {
            assert(self@.agent_chain.subrange(0, n as int) =~= self@.agent_chain);
        }
        while i < n
            invariant
                n == self.agent_chain.len(),
                i <= n,
                self@.agent_chain.len() == n,
                forall|j: int| 0 <= j < i ==> #[trigger] self@.agent_chain[j].address != address@,
                chain_lookup(self@.agent_chain, address@) == chain_lookup(
                    self@.agent_chain.subrange(i as int, n as int),
                    address@,
                ),
            decreases n - i,
        {
            proof {
                assert(self@.agent_chain[i as int] == self.agent_chain@[i as int]@);
            }
            if self.agent_chain[i].address.0 == address.0 {
                proof {
                    assert(self@.agent_chain.subrange(i as int, n as int)[0].address == address@);
                }
                return Some(&self.agent_chain[i]);
            }
            proof {
                assert(self@.agent_chain.subrange(i as int, n as int).subrange(
                    1,
                    (n - i) as int,
                ) =~= self@.agent_chain.subrange(i + 1, n as int));
            }
            i = i + 1;
        }
        None
    }
}

/// The mathematical content of a [`Context`].
pub struct ContextModel {
    pub agent_id: AgentIdModel,
    pub state: Option<StateModel>,
}

/// What a reader of shared state holds: the local agent's identity and the
/// latest snapshot, if state exists yet.
#[derive(Debug)]
pub struct Context {
    pub agent_id: AgentId,
    pub state: Option<State>,
}

impl View for Context {
    type V = ContextModel;

    open spec fn view(&self) -> ContextModel {
        ContextModel {
            agent_id: self.agent_id@,
            state: match &self.state {
                Some(state) => Some(state@),
                None => None,
            },
        }
    }
}

/// The DNA visible through a context, if state exists and one is installed.
pub open spec fn context_dna(c: ContextModel) -> Option<DnaModel> {
    match c.state {
        Some(state) => state.nucleus.dna,
        None => None,
    }
}

impl Context {
    /// Builds a reader's context.
    pub fn new(agent_id: AgentId, state: Option<State>) -> (r: Context)
        ensures
            r@.agent_id == agent_id@,
            agent_id@ == r@.agent_id,
            (r@.state is Some) == (state is Some),
            state matches Some(s) ==> r@.state == Some(s@),
    {
        Context { agent_id, state }
    }

    /// The latest snapshot, if state exists yet.
    pub fn state(&self) -> (r: Option<&State>)
        ensures
            match r {
                Some(state) => self@.state == Some(state@),
                None => self@.state is None,
            },
    {
        match &self.state {
            Some(state) => Some(state),
            None => None,
        }
    }

    /// The installed DNA, if state exists and one is installed.
    pub fn get_dna(&self) -> (r: Option<&Dna>)
        ensures
            match r {
                Some(dna) => context_dna(self@) == Some(dna@),
                None => context_dna(self@) is None,
            },
    {
        match &self.state {
            Some(state) => state.nucleus.dna(),
            None => None,
        }
    }
}

} // verus!
