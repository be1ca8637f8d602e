//! The network state tracker: a passive ledger of outstanding network
//! operations and their results.
//!
//! Mutated only by the network-action reducer; read by any component
//! checking outstanding work.  For each kind of round-trip, absence of an
//! entry means "never asked"; an entry holding `None` means "asked, awaiting
//! the network"; a terminal `Err` is an application-level failure; a
//! terminal `Ok` is the answer.

use vstd::prelude::*;

use crate::action::{ActionWrapper, ActionWrapperModel};
use crate::address::Address;
use crate::error::{ErrorModel, HolochainError};

verus! {

/// The network handle: what the transport hands back when it attaches.
/// Opaque to the core; only its presence matters here.
#[derive(Debug)]
pub struct NetworkHandle {
    /// The transport's name for this attachment.
    pub id: String,
}

impl View for NetworkHandle {
    type V = Seq<char>;

    open spec fn view(&self) -> Seq<char> {
        self.id@
    }
}

/// The outcome the reducer recorded for a dispatched network action.
#[derive(Debug)]
pub struct ActionResponse {
    pub result: Result<Address, HolochainError>,
}

impl View for ActionResponse {
    type V = Result<Seq<char>, ErrorModel>;

    open spec fn view(&self) -> Result<Seq<char>, ErrorModel> {
        match &self.result {
            Ok(address) => Ok(address@),
            Err(e) => Err(e@),
        }
    }
}

impl DeepView for ActionResponse {
    type V = Result<Seq<char>, ErrorModel>;

    open spec fn deep_view(&self) -> Result<Seq<char>, ErrorModel> {
        self@
    }
}

/// The mathematical content of a [`ValidationPackage`].
pub struct ValidationPackageModel {
    pub chain_header_address: Seq<char>,
}

/// What a validation-package round-trip brings back; the core reads only
/// which entry it belongs to.
#[derive(Debug, PartialEq, Eq)]
pub struct ValidationPackage {
    pub chain_header_address: Address,
}

impl View for ValidationPackage {
    type V = ValidationPackageModel;

    open spec fn view(&self) -> ValidationPackageModel {
        ValidationPackageModel { chain_header_address: self.chain_header_address@ }
    }
}

/// The state of one get-validation-package round-trip.
/// `None`: asked, no response yet.  `Some(Err(_))`: a problem on the way.
/// `Some(Ok(None))`: the asked agent had no package.  `Some(Ok(Some(_)))`:
/// the package arrived.
pub type GetValidationPackageResult = Option<
    Result<Option<ValidationPackage>, HolochainError>,
>;

/// The mathematical content of a [`GetValidationPackageResult`].
pub type GetValidationPackageResultModel = Option<
    Result<Option<ValidationPackageModel>, ErrorModel>,
>;

/// The view of one recorded validation-package state.
pub open spec fn vp_result_view(r: &GetValidationPackageResult) -> GetValidationPackageResultModel {
    match r {
        None => None,
        Some(Ok(None)) => Some(Ok(None)),
        Some(Ok(Some(package))) => Some(Ok(Some(package@))),
        Some(Err(e)) => Some(Err(e@)),
    }
}

/// The mathematical content of a [`NetworkQueryResult`].
pub enum NetworkQueryResultModel {
    Entry(Option<EntryAnswerModel>),
    Links(Seq<Seq<char>>),
}

/// The mathematical content of an [`EntryAnswer`].
pub struct EntryAnswerModel {
    pub address: Seq<char>,
}

/// The entry half of a query answer; the core reads only its address.
#[derive(Debug, PartialEq, Eq)]
pub struct EntryAnswer {
    pub address: Address,
}

impl View for EntryAnswer {
    type V = EntryAnswerModel;

    open spec fn view(&self) -> EntryAnswerModel {
        EntryAnswerModel { address: self.address@ }
    }
}

/// What a generic query round-trip brings back: an entry answer or a list
/// of link addresses.
#[derive(Debug, PartialEq, Eq)]
pub enum NetworkQueryResult {
    Entry(Option<EntryAnswer>),
    Links(Vec<Address>),
}

impl View for NetworkQueryResult {
    type V = NetworkQueryResultModel;

    open spec fn view(&self) -> NetworkQueryResultModel {
        match self {
            NetworkQueryResult::Entry(None) => NetworkQueryResultModel::Entry(None),
            NetworkQueryResult::Entry(Some(answer)) => NetworkQueryResultModel::Entry(
                Some(answer@),
            ),
            NetworkQueryResult::Links(addresses) => NetworkQueryResultModel::Links(
                addresses.deep_view(),
            ),
        }
    }
}

/// The state of one generic query round-trip, read as the three-state
/// ledger entry described on [`NetworkState`].
pub type GetResults = Option<Result<NetworkQueryResult, HolochainError>>;

/// The mathematical content of a [`GetResults`].
pub type GetResultsModel = Option<Result<NetworkQueryResultModel, ErrorModel>>;

/// The view of one recorded query state.
pub open spec fn get_results_view(r: &GetResults) -> GetResultsModel {
    match r {
        None => None,
        Some(Ok(answer)) => Some(Ok(answer@)),
        Some(Err(e)) => Some(Err(e@)),
    }
}

/// The key of a generic query: the address asked about and the query's
/// process-unique id.
#[derive(Debug)]
pub struct QueryKey {
    pub address: Address,
    pub id: String,
}

/// The mathematical content of a [`QueryKey`].
pub struct QueryKeyModel {
    pub address: Seq<char>,
    pub id: Seq<char>,
}

impl View for QueryKey {
    type V = QueryKeyModel;

    open spec fn view(&self) -> QueryKeyModel {
        QueryKeyModel { address: self.address@, id: self.id@ }
    }
}

/// The mathematical content of a [`DirectMessage`].
pub enum DirectMessageModel {
    Custom { zome: Seq<char>, payload: Seq<char> },
    RequestValidationPackage(Seq<char>),
}

/// An open node-to-node conversation.
#[derive(Debug)]
pub enum DirectMessage {
    /// An app-defined message to a zome.
    Custom { zome: String, payload: String },
    /// A request for the validation package of an address.
    RequestValidationPackage(Address),
}

impl View for DirectMessage {
    type V = DirectMessageModel;

    open spec fn view(&self) -> DirectMessageModel {
        match self {
            DirectMessage::Custom { zome, payload } => DirectMessageModel::Custom {
                zome: zome@,
                payload: payload@,
            },
            DirectMessage::RequestValidationPackage(address) => {
                DirectMessageModel::RequestValidationPackage(address@)
            },
        }
    }
}

/// The mathematical content of a [`NetworkState`].
pub struct NetworkStateModel {
    pub actions: Seq<(ActionWrapperModel, Result<Seq<char>, ErrorModel>)>,
    pub network: Option<Seq<char>>,
    pub dna_address: Option<Seq<char>>,
    pub agent_id: Option<Seq<char>>,
    pub get_query_results: Seq<(QueryKeyModel, GetResultsModel)>,
    pub get_validation_package_results: Seq<(Seq<char>, GetValidationPackageResultModel)>,
    pub direct_message_connections: Seq<(Seq<char>, DirectMessageModel)>,
    pub custom_direct_message_replys: Seq<(Seq<char>, Result<Seq<char>, ErrorModel>)>,
    pub id: Seq<char>,
}

/// Per-instance record of outstanding network operations and their results.
#[derive(Debug)]
pub struct NetworkState {
    /// Every dispatched action and the response recorded for it.
    pub actions: Vec<(ActionWrapper, ActionResponse)>,
    /// The transport handle, present while the network layer is attached.
    pub network: Option<NetworkHandle>,
    /// The DNA this instance runs, once known.
    pub dna_address: Option<Address>,
    /// The local agent, once known.
    pub agent_id: Option<String>,
    /// The results of every generic query, keyed by query key.
    pub get_query_results: Vec<(QueryKey, GetResults)>,
    /// The results of validation-package fetches, keyed by address.
    pub get_validation_package_results: Vec<(Address, GetValidationPackageResult)>,
    /// Every open node-to-node conversation, keyed by message id; an entry
    /// leaves when its answer arrives.
    pub direct_message_connections: Vec<(String, DirectMessage)>,
    /// The replies to custom direct messages, keyed by message id.
    pub custom_direct_message_replys: Vec<(String, Result<String, HolochainError>)>,
    /// This ledger's process-unique identity.
    id: String,
}

impl View for NetworkState {
    type V = NetworkStateModel;

    closed spec fn view(&self) -> NetworkStateModel {
        NetworkStateModel {
            actions: Seq::new(
                self.actions@.len(),
                |i: int| (self.actions@[i].0@, self.actions@[i].1@),
            ),
            network: match &self.network {
                Some(handle) => Some(handle@),
                None => None,
            },
            dna_address: self.dna_address.deep_view(),
            agent_id: self.agent_id.deep_view(),
            get_query_results: Seq::new(
                self.get_query_results@.len(),
                |i: int|
                    (
                        self.get_query_results@[i].0@,
                        get_results_view(&self.get_query_results@[i].1),
                    ),
            ),
            get_validation_package_results: Seq::new(
                self.get_validation_package_results@.len(),
                |i: int|
                    (
                        self.get_validation_package_results@[i].0@,
                        vp_result_view(&self.get_validation_package_results@[i].1),
                    ),
            ),
            direct_message_connections: Seq::new(
                self.direct_message_connections@.len(),
                |i: int|
                    (
                        self.direct_message_connections@[i].0@,
                        self.direct_message_connections@[i].1@,
                    ),
            ),
            custom_direct_message_replys: Seq::new(
                self.custom_direct_message_replys@.len(),
                |i: int|
                    (
                        self.custom_direct_message_replys@[i].0@,
                        match &self.custom_direct_message_replys@[i].1 {
                            Ok(reply) => Ok(reply@),
                            Err(e) => Err(e@),
                        },
                    ),
            ),
            id: self.id@,
        }
    }
}

/// Whether the tracker is initialized: network handle present, DNA address
/// set, agent id set.
pub open spec fn network_initialized(m: NetworkStateModel) -> bool {
    m.network is Some && m.dna_address is Some && m.agent_id is Some
}

impl NetworkState {
    /// An empty ledger with a fresh identity: nothing asked, nothing
    /// attached.
    pub fn new() -> (r: NetworkState)
        ensures
            r@.actions.len() == 0,
            r@.network is None,
            r@.dna_address is None,
            r@.agent_id is None,
            r@.get_query_results.len() == 0,
            r@.get_validation_package_results.len() == 0,
            r@.direct_message_connections.len() == 0,
            r@.custom_direct_message_replys.len() == 0,
    {
        NetworkState {
            actions: Vec::new(),
            network: None,
            dna_address: None,
            agent_id: None,
            get_query_results: Vec::new(),
            get_validation_package_results: Vec::new(),
            direct_message_connections: Vec::new(),
            custom_direct_message_replys: Vec::new(),
            id: crate::zome_call::fresh_process_unique_id(),
        }
    }

    /// The recorded actions and their responses.
    pub fn actions(&self) -> (r: &Vec<(ActionWrapper, ActionResponse)>)
        ensures
            Seq::new(r@.len(), |i: int| (r@[i].0@, r@[i].1@)) == self@.actions,
    {
        &self.actions
    }

    /// Whether the instance's network is ready for use: the transport
    /// handle is present and the DNA address and agent id are set.  Anything
    /// less is the network-not-initialized error.
    pub fn initialized(&self) -> (r: Result<(), HolochainError>)
        ensures
            r is Ok <==> network_initialized(self@),
            r matches Err(e) ==> (e matches HolochainError::ErrorGeneric(msg) && msg@
                == "Network not initialized"@),
    {
        if self.network.is_some() && self.dna_address.is_some() && self.agent_id.is_some() {
            Ok(())
        } else {
            Err(HolochainError::ErrorGeneric(String::from_str("Network not initialized")))
        }
    }

    /// The recorded state of the validation-package fetch for an address:
    /// `None` if never asked, otherwise the three-state ledger entry.
    pub fn get_validation_package_result(&self, address: &Address) -> (r: Option<
        &GetValidationPackageResult,
    >)
        ensures
            match r {
                Some(entry) => assoc_has(self@.get_validation_package_results, address@)
                    && vp_result_view(entry) == assoc_lookup(
                    self@.get_validation_package_results,
                    address@,
                ),
                None => !assoc_has(self@.get_validation_package_results, address@),
            },
    {
        let n = self.get_validation_package_results.len();
        let mut i: usize = 0;
        proof {
            assert(self@.get_validation_package_results.subrange(0, n as int)
                =~= self@.get_validation_package_results);
        }
        while i < n
            invariant
                n == self.get_validation_package_results.len(),
                i <= n,
                self@.get_validation_package_results.len() == n,
                forall|j: int|
                    0 <= j < i ==> #[trigger] self@.get_validation_package_results[j].0
                        != address@,
                assoc_lookup(self@.get_validation_package_results, address@) == assoc_lookup(
                    self@.get_validation_package_results.subrange(i as int, n as int),
                    address@,
                ),
            decreases n - i,
        {
            proof {
                assert(self@.get_validation_package_results[i as int]
                    == (self.get_validation_package_results@[i as int].0@,
                vp_result_view(&self.get_validation_package_results@[i as int].1)));
            }
            if self.get_validation_package_results[i].0.0 == address.0 {
                proof {
                    assert(self@.get_validation_package_results.subrange(i as int, n as int)[0].0
                        == address@);
                }
                return Some(&self.get_validation_package_results[i].1);
            }
            proof {
                assert(self@.get_validation_package_results.subrange(i as int, n as int).subrange(
                    1,
                    (n - i) as int,
                ) =~= self@.get_validation_package_results.subrange(i + 1, n as int));
            }
            i = i + 1;
        }
        None
    }

    /// The recorded state of a generic query, by its key.
    pub fn get_query_result(&self, key: &QueryKey) -> (r: Option<&GetResults>)
        ensures
            match r {
                Some(entry) => query_assoc_has(self@.get_query_results, key@) && get_results_view(
                    entry,
                ) == query_assoc_lookup(self@.get_query_results, key@),
                None => !query_assoc_has(self@.get_query_results, key@),
            },
    {
        let n = self.get_query_results.len();
        let mut i: usize = 0;
        proof {
            assert(self@.get_query_results.subrange(0, n as int) =~= self@.get_query_results);
        }
        while i < n
            invariant
                n == self.get_query_results.len(),
                i <= n,
                self@.get_query_results.len() == n,
                forall|j: int|
                    0 <= j < i ==> !(#[trigger] self@.get_query_results[j].0.address == key@.address
                        && self@.get_query_results[j].0.id == key@.id),
                query_assoc_lookup(self@.get_query_results, key@) == query_assoc_lookup(
                    self@.get_query_results.subrange(i as int, n as int),
                    key@,
                ),
            decreases n - i,
        {
            proof {
                assert(self@.get_query_results[i as int] == (self.get_query_results@[i as int].0@,
                get_results_view(&self.get_query_results@[i as int].1)));
            }
            if self.get_query_results[i].0.address.0 == key.address.0
                && self.get_query_results[i].0.id == key.id {
                proof {
                    assert(self@.get_query_results.subrange(i as int, n as int)[0].0.address
                        == key@.address);
                    assert(self@.get_query_results.subrange(i as int, n as int)[0].0.id == key@.id);
                }
                return Some(&self.get_query_results[i].1);
            }
            proof {
                assert(self@.get_query_results.subrange(i as int, n as int).subrange(
                    1,
                    (n - i) as int,
                ) =~= self@.get_query_results.subrange(i + 1, n as int));
            }
            i = i + 1;
        }
        None
    }

    /// The open direct-message conversation with the given id, if any.
    pub fn open_direct_message(&self, id: &String) -> (r: Option<&DirectMessage>)
        ensures
            match r {
                Some(message) => dm_assoc_has(self@.direct_message_connections, id@) && message@
                    == dm_assoc_lookup(self@.direct_message_connections, id@),
                None => !dm_assoc_has(self@.direct_message_connections, id@),
            },
    {
        let n = self.direct_message_connections.len();
        let mut i: usize = 0;
        proof {
            assert(self@.direct_message_connections.subrange(0, n as int)
                =~= self@.direct_message_connections);
        }
        while i < n
            invariant
                n == self.direct_message_connections.len(),
                i <= n,
                self@.direct_message_connections.len() == n,
                forall|j: int|
                    0 <= j < i ==> #[trigger] self@.direct_message_connections[j].0 != id@,
                dm_assoc_lookup(self@.direct_message_connections, id@) == dm_assoc_lookup(
                    self@.direct_message_connections.subrange(i as int, n as int),
                    id@,
                ),
            decreases n - i,
        {
            proof {
                assert(self@.direct_message_connections[i as int]
                    == (self.direct_message_connections@[i as int].0@,
                self.direct_message_connections@[i as int].1@));
            }
            if self.direct_message_connections[i].0 == *id {
                proof {
                    assert(self@.direct_message_connections.subrange(i as int, n as int)[0].0
                        == id@);
                }
                return Some(&self.direct_message_connections[i].1);
            }
            proof {
                assert(self@.direct_message_connections.subrange(i as int, n as int).subrange(
                    1,
                    (n - i) as int,
                ) =~= self@.direct_message_connections.subrange(i + 1, n as int));
            }
            i = i + 1;
        }
        None
    }
}

/// Whether an address-keyed ledger has an entry for the key.
pub open spec fn assoc_has(
    entries: Seq<(Seq<char>, GetValidationPackageResultModel)>,
    key: Seq<char>,
) -> bool {
    exists|i: int| 0 <= i < entries.len() && entries[i].0 == key
}

/// The first entry for the key in an address-keyed ledger.
pub open spec fn assoc_lookup(
    entries: Seq<(Seq<char>, GetValidationPackageResultModel)>,
    key: Seq<char>,
) -> GetValidationPackageResultModel
    decreases entries.len(),
{
    if entries.len() == 0 {
        None
    } else if entries[0].0 == key {
        entries[0].1
    } else {
        assoc_lookup(entries.subrange(1, entries.len() as int), key)
    }
}

/// Whether a query-keyed ledger has an entry for the key.
pub open spec fn query_assoc_has(
    entries: Seq<(QueryKeyModel, GetResultsModel)>,
    key: QueryKeyModel,
) -> bool {
    exists|i: int|
        0 <= i < entries.len() && entries[i].0.address == key.address && entries[i].0.id == key.id
}

/// The first entry for the key in a query-keyed ledger.
pub open spec fn query_assoc_lookup(
    entries: Seq<(QueryKeyModel, GetResultsModel)>,
    key: QueryKeyModel,
) -> GetResultsModel
    decreases entries.len(),
{
    if entries.len() == 0 {
        None
    } else if entries[0].0.address == key.address && entries[0].0.id == key.id {
        entries[0].1
    } else {
        query_assoc_lookup(entries.subrange(1, entries.len() as int), key)
    }
}

/// Whether an id-keyed conversation ledger has an entry for the id.
pub open spec fn dm_assoc_has(
    entries: Seq<(Seq<char>, DirectMessageModel)>,
    key: Seq<char>,
) -> bool {
    exists|i: int| 0 <= i < entries.len() && entries[i].0 == key
}

/// The first entry for the id in a conversation ledger.
pub open spec fn dm_assoc_lookup(
    entries: Seq<(Seq<char>, DirectMessageModel)>,
    key: Seq<char>,
) -> DirectMessageModel
    decreases entries.len(),
{
    if entries.len() == 0 {
        DirectMessageModel::RequestValidationPackage(key)
    } else if entries[0].0 == key {
        entries[0].1
    } else {
        dm_assoc_lookup(entries.subrange(1, entries.len() as int), key)
    }
}

} // verus!
