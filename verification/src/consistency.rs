//! The consistency model: from every dispatched action, the causal graph of
//! pending distributed effects.
//!
//! Consuming the action stream in dispatch order, exactly once per action,
//! the model emits a [`ConsistencySignal`] for a subset of kinds: an
//! observed headline event plus zero or more predicted follow-up events,
//! each tagged with the population of nodes that must later observe it.
//! A commit's signal is cached by address and emitted only when the
//! matching publish arrives; everything else resolves immediately.

use vstd::prelude::*;

use crate::action::{Action, ActionModel};
use crate::address::Address;
use crate::agent::{AgentId, AgentIdModel};
use crate::entry::{Entry, EntryContent, EntryContentModel, EntryModel, LinkData, LinkModel};
use crate::json::{quote_json_str, quote_seq};
use crate::state::{context_dna, Context, ContextModel};

verus! {

/// Which population of nodes must later observe a pending event:
/// the authoring node itself, or the validating peer population.
#[derive(Debug, Clone, Copy, PartialEq, Eq, Structural)]
pub enum ConsistencyGroup {
    Source,
    Validators,
}

/// The mathematical content of a [`ConsistencyEvent`].
pub enum ConsistencyEventModel {
    // Causes.
    Publish(Seq<char>),
    AddPendingValidation(Seq<char>),
    SignalZomeFunctionCall(Seq<char>),
    // Effects.
    Hold(Seq<char>),
    UpdateEntry(Seq<char>, Seq<char>),
    RemoveEntry(Seq<char>, Seq<char>),
    AddLink(LinkModel),
    RemoveLink(EntryModel),
    RemovePendingValidation(Seq<char>),
    ReturnZomeFunctionResult(Seq<char>),
}

/// One observable event of the consistency model.  The first three kinds
/// cause a later effect; the rest are the effects they cause.
#[derive(Debug, PartialEq, Eq)]
pub enum ConsistencyEvent {
    /// Causes a later `Hold` (and crud effects) by the validators.
    Publish(Address),
    /// Causes a later `RemovePendingValidation` by this node.
    AddPendingValidation(Address),
    /// Causes a later `ReturnZomeFunctionResult` by this node; carries the
    /// call's process-unique id.
    SignalZomeFunctionCall(String),
    /// A published entry is held.
    Hold(Address),
    /// An entry was updated: crud-link and updating address.
    UpdateEntry(Address, Address),
    /// An entry was removed: crud-link and deletion address.
    RemoveEntry(Address, Address),
    /// A link was added.
    AddLink(LinkData),
    /// A link was removed; carries the link-remove entry.
    RemoveLink(Entry),
    /// An outstanding validation finished.
    RemovePendingValidation(Address),
    /// A zome function call finished, by call id.
    ReturnZomeFunctionResult(String),
}

impl View for ConsistencyEvent {
    type V = ConsistencyEventModel;

    open spec fn view(&self) -> ConsistencyEventModel {
        match self {
            ConsistencyEvent::Publish(a) => ConsistencyEventModel::Publish(a@),
            ConsistencyEvent::AddPendingValidation(a) => ConsistencyEventModel::AddPendingValidation(
                a@,
            ),
            ConsistencyEvent::SignalZomeFunctionCall(id) => {
                ConsistencyEventModel::SignalZomeFunctionCall(id@)
            },
            ConsistencyEvent::Hold(a) => ConsistencyEventModel::Hold(a@),
            ConsistencyEvent::UpdateEntry(a, b) => ConsistencyEventModel::UpdateEntry(a@, b@),
            ConsistencyEvent::RemoveEntry(a, b) => ConsistencyEventModel::RemoveEntry(a@, b@),
            ConsistencyEvent::AddLink(l) => ConsistencyEventModel::AddLink(l@),
            ConsistencyEvent::RemoveLink(e) => ConsistencyEventModel::RemoveLink(e@),
            ConsistencyEvent::RemovePendingValidation(a) => {
                ConsistencyEventModel::RemovePendingValidation(a@)
            },
            ConsistencyEvent::ReturnZomeFunctionResult(id) => {
                ConsistencyEventModel::ReturnZomeFunctionResult(id@)
            },
        }
    }
}

impl Clone for ConsistencyEvent {
    fn clone(&self) -> (r: Self)
        ensures
            r@ == self@,
    {
        match self {
            ConsistencyEvent::Publish(a) => ConsistencyEvent::Publish(a.clone()),
            ConsistencyEvent::AddPendingValidation(a) => ConsistencyEvent::AddPendingValidation(
                a.clone(),
            ),
            ConsistencyEvent::SignalZomeFunctionCall(id) => {
                ConsistencyEvent::SignalZomeFunctionCall(id.clone())
            },
            ConsistencyEvent::Hold(a) => ConsistencyEvent::Hold(a.clone()),
            ConsistencyEvent::UpdateEntry(a, b) => ConsistencyEvent::UpdateEntry(
                a.clone(),
                b.clone(),
            ),
            ConsistencyEvent::RemoveEntry(a, b) => ConsistencyEvent::RemoveEntry(
                a.clone(),
                b.clone(),
            ),
            ConsistencyEvent::AddLink(l) => ConsistencyEvent::AddLink(l.clone()),
            ConsistencyEvent::RemoveLink(e) => ConsistencyEvent::RemoveLink(e.clone()),
            ConsistencyEvent::RemovePendingValidation(a) => {
                ConsistencyEvent::RemovePendingValidation(a.clone())
            },
            ConsistencyEvent::ReturnZomeFunctionResult(id) => {
                ConsistencyEvent::ReturnZomeFunctionResult(id.clone())
            },
        }
    }
}

/// The mathematical content of a [`PendingConsistency`].
#[verifier::ext_equal]
pub struct PendingModel {
    pub event: ConsistencyEventModel,
    pub group: ConsistencyGroup,
}

/// A predicted follow-up event, tagged with the group that must observe it.
#[derive(Debug, PartialEq, Eq)]
pub struct PendingConsistency<E> {
    pub event: E,
    pub group: ConsistencyGroup,
}

impl View for PendingConsistency<ConsistencyEvent> {
    type V = PendingModel;

    open spec fn view(&self) -> PendingModel {
        PendingModel { event: self.event@, group: self.group }
    }
}

impl DeepView for PendingConsistency<ConsistencyEvent> {
    type V = PendingModel;

    open spec fn deep_view(&self) -> PendingModel {
        self@
    }
}

impl Clone for PendingConsistency<ConsistencyEvent> {
    fn clone(&self) -> (r: Self)
        ensures
            r@ == self@,
    {
        PendingConsistency { event: self.event.clone(), group: self.group }
    }
}

/// The mathematical content of a [`ConsistencySignal`] over
/// [`ConsistencyEvent`].
#[verifier::ext_equal]
pub struct SignalModel {
    pub event: ConsistencyEventModel,
    pub pending: Seq<PendingModel>,
}

/// An observed headline event plus its predicted follow-ups.  Transient:
/// emitted once, never persisted.
#[derive(Debug, PartialEq, Eq)]
pub struct ConsistencySignal<E> {
    pub event: E,
    pub pending: Vec<PendingConsistency<E>>,
}

impl View for ConsistencySignal<ConsistencyEvent> {
    type V = SignalModel;

    open spec fn view(&self) -> SignalModel {
        SignalModel { event: self.event@, pending: self.pending.deep_view() }
    }
}

impl Clone for ConsistencySignal<ConsistencyEvent> {
    fn clone(&self) -> (r: Self)
        ensures
            r@ == self@,
    {
        let mut pending: Vec<PendingConsistency<ConsistencyEvent>> = Vec::new();
        let n = self.pending.len();
        let mut i: usize = 0;
        while i < n
            invariant
                n == self.pending.len(),
                i <= n,
                pending@.len() == i,
                forall|j: int|
                    0 <= j < i ==> #[trigger] pending.deep_view()[j] == self.pending.deep_view()[j],
            decreases n - i,
        {
            let ghost prev_at = pending@;
            let ghost prev_dv = pending.deep_view();
            pending.push(self.pending[i].clone());
            proof {
                assert forall|j: int|
                    0 <= j < i + 1 implies #[trigger] pending.deep_view()[j]
                    == self.pending.deep_view()[j] by {
                    assert(pending.deep_view()[j] == pending@[j].deep_view());
                    if j < i {
                        assert(pending@[j] == prev_at[j]);
                        assert(prev_dv[j] == prev_at[j].deep_view());
                        assert(prev_dv[j] == self.pending.deep_view()[j]);
                    } else {
                        assert(pending@[j]@ == self.pending@[j]@);
                    }
                }
            }
            i = i + 1;
        }
        proof {
            assert(pending.deep_view() =~= self.pending.deep_view());
        }
        ConsistencySignal { event: self.event.clone(), pending }
    }
}

impl<E> ConsistencySignal<E> {
    /// A signal with no predicted follow-ups.
    pub fn new_terminal(event: E) -> (r: Self)
        ensures
            r.event == event,
            r.pending@.len() == 0,
    {
        Self { event, pending: Vec::new() }
    }

    /// A signal predicting the given follow-up events, all in one group.
    pub fn new_pending(event: E, group: ConsistencyGroup, pending_events: Vec<E>) -> (r: Self)
        ensures
            r.event == event,
            r.pending@.len() == pending_events@.len(),
            forall|i: int|
                0 <= i < pending_events@.len() ==> (#[trigger] r.pending@[i]).event
                    == pending_events@[i] && r.pending@[i].group == group,
    {
        let ghost all = pending_events@;
        let mut pending_events = pending_events;
        let mut pending: Vec<PendingConsistency<E>> = Vec::new();
        while pending_events.len() > 0
            invariant
                pending@.len() + pending_events@.len() == all.len(),
                pending_events@ == all.subrange(pending@.len() as int, all.len() as int),
                forall|i: int|
                    0 <= i < pending@.len() ==> (#[trigger] pending@[i]).event == all[i]
                        && pending@[i].group == group,
            decreases pending_events@.len(),
        {
            let event_i = pending_events.remove(0);
            proof {
                assert(all.subrange(pending@.len() as int, all.len() as int)[0] == all[pending@.len() as int]);
            }
            pending.push(PendingConsistency { event: event_i, group });
            proof {
                assert(pending_events@ =~= all.subrange(pending@.len() as int, all.len() as int));
            }
        }
        Self { event, pending }
    }
}

/// The view of one commit-cache slot.
pub open spec fn cache_view(s: Seq<(Address, ConsistencySignal<ConsistencyEvent>)>) -> Seq<
    (Seq<char>, SignalModel),
> {
    Seq::new(s.len(), |i: int| (s[i].0@, s[i].1@))
}

/// The commit cache read as a map from address to cached signal; where an
/// address occurs more than once, the earliest slot wins.
pub open spec fn cache_map(s: Seq<(Seq<char>, SignalModel)>) -> Map<Seq<char>, SignalModel>
    decreases s.len(),
{
    if s.len() == 0 {
        Map::empty()
    } else {
        cache_map(s.subrange(1, s.len() as int)).insert(s[0].0, s[0].1)
    }
}

/// Appending a slot binds its address only where the address was free.
proof fn lemma_cache_map_snoc(s: Seq<(Seq<char>, SignalModel)>, e: (Seq<char>, SignalModel))
    ensures
        cache_map(s.push(e)) == if cache_map(s).contains_key(e.0) {
            cache_map(s)
        } else {
            cache_map(s).insert(e.0, e.1)
        },
    decreases s.len(),
{
    if s.len() == 0 {
        let empty = Seq::<(Seq<char>, SignalModel)>::empty();
        assert(s.push(e).subrange(1, 1) =~= empty);
        assert(s.push(e)[0] == e);
        assert(cache_map(empty) == Map::<Seq<char>, SignalModel>::empty());
        assert(cache_map(s.push(e)) == cache_map(empty).insert(e.0, e.1));
        assert(cache_map(s) == Map::<Seq<char>, SignalModel>::empty());
    } else {
        let t = s.subrange(1, s.len() as int);
        assert(s.push(e).subrange(1, s.len() as int + 1) =~= t.push(e));
        assert(s.push(e)[0] == s[0]);
        lemma_cache_map_snoc(t, e);
        if cache_map(t).contains_key(e.0) {
            assert(cache_map(s.push(e)) == cache_map(s));
            assert(cache_map(s).contains_key(e.0));
        } else {
            if s[0].0 == e.0 {
                assert(cache_map(t).insert(e.0, e.1).insert(s[0].0, s[0].1) =~= cache_map(
                    t,
                ).insert(s[0].0, s[0].1));
                assert(cache_map(s.push(e)) == cache_map(s));
                assert(cache_map(s).contains_key(e.0));
            } else {
                assert(cache_map(t).insert(e.0, e.1).insert(s[0].0, s[0].1) =~= cache_map(
                    t,
                ).insert(s[0].0, s[0].1).insert(e.0, e.1));
                assert(cache_map(s.push(e)) == cache_map(s).insert(e.0, e.1));
                assert(!cache_map(s).contains_key(e.0));
            }
        }
    }
}

/// Removes every slot cached for the address, returning the signal the
/// cache held for it, if any.
fn cache_take(
    cache: &mut Vec<(Address, ConsistencySignal<ConsistencyEvent>)>,
    address: &Address,
) -> (r: Option<ConsistencySignal<ConsistencyEvent>>)
    ensures
        cache_map(cache_view(final(cache)@)) == cache_map(cache_view(old(cache)@)).remove(
            address@,
        ),
        match r {
            Some(signal) => cache_map(cache_view(old(cache)@)).contains_key(address@) && signal@
                == cache_map(cache_view(old(cache)@))[address@],
            None => !cache_map(cache_view(old(cache)@)).contains_key(address@),
        },
{
    let ghost orig = cache_view(old(cache)@);
    let mut rest: Vec<(Address, ConsistencySignal<ConsistencyEvent>)> = Vec::new();
    core::mem::swap(cache, &mut rest);
    let mut found: Option<ConsistencySignal<ConsistencyEvent>> = None;
    let ghost processed_len: int = 0;
    proof {
        assert(cache_view(rest@) =~= orig.subrange(0, orig.len() as int));
        assert(cache_view(cache@) =~= Seq::<(Seq<char>, SignalModel)>::empty());
        assert(cache_map(cache_view(cache@)) =~= cache_map(orig.take(0)).remove(address@));
    }
    while rest.len() > 0
        invariant
            0 <= processed_len <= orig.len(),
            cache_view(rest@) == orig.subrange(processed_len, orig.len() as int),
            cache_map(cache_view(cache@)) == cache_map(orig.take(processed_len)).remove(address@),
            match found {
                Some(signal) => cache_map(orig.take(processed_len)).contains_key(address@)
                    && signal@ == cache_map(orig.take(processed_len))[address@],
                None => !cache_map(orig.take(processed_len)).contains_key(address@),
            },
        decreases rest@.len(),
    {
        proof {
            assert(cache_view(rest@).len() == rest@.len());
            assert(processed_len < orig.len());
        }
        let ghost processed = orig.take(processed_len);
        let ghost e = orig[processed_len];
        proof {
            assert(cache_view(rest@)[0] == orig.subrange(processed_len, orig.len() as int)[0]);
            assert(cache_view(rest@)[0] == e);
            assert(orig.take(processed_len + 1) =~= processed.push(e));
            lemma_cache_map_snoc(processed, e);
        }
        let ghost rest_before = rest@;
        let (slot_address, slot_signal) = rest.remove(0);
        proof {
            assert((slot_address@, slot_signal@) == e);
            assert(rest@ == rest_before.remove(0));
            assert forall|j: int| 0 <= j < rest@.len() implies #[trigger] cache_view(rest@)[j]
                == orig.subrange(processed_len + 1, orig.len() as int)[j] by {
                assert(rest@[j] == rest_before[j + 1]);
                assert(cache_view(rest_before)[j + 1] == orig.subrange(
                    processed_len,
                    orig.len() as int,
                )[j + 1]);
            }
            assert(cache_view(rest@) =~= orig.subrange(processed_len + 1, orig.len() as int));
        }
        if slot_address.0 == address.0 {
            if found.is_none() {
                proof {
                    assert(cache_map(processed.push(e)) == cache_map(processed).insert(e.0, e.1));
                    assert(cache_map(processed).insert(e.0, e.1).remove(address@) =~= cache_map(
                        processed,
                    ).remove(address@));
                }
                found = Some(slot_signal);
            } else {
                proof {
                    assert(cache_map(processed.push(e)) == cache_map(processed));
                }
            }
        } else {
            let ghost kept = cache_view(cache@);
            proof {
                lemma_cache_map_snoc(kept, e);
                if cache_map(processed).contains_key(e.0) {
                    assert(cache_map(kept).contains_key(e.0));
                    assert(cache_map(processed.push(e)) == cache_map(processed));
                } else {
                    assert(!cache_map(kept).contains_key(e.0));
                    assert(cache_map(processed.push(e)) == cache_map(processed).insert(e.0, e.1));
                    assert(cache_map(processed).remove(address@).insert(e.0, e.1) =~= cache_map(
                        processed,
                    ).insert(e.0, e.1).remove(address@));
                }
            }
            cache.push((slot_address, slot_signal));
            proof {
                assert(cache_view(cache@) =~= kept.push(e));
            }
        }
        proof {
            processed_len = processed_len + 1;
        }
    }
    proof {
        assert(orig.take(orig.len() as int) =~= orig);
        assert(processed_len == orig.len());
    }
    found
}

/// Caches a signal for an address, overwriting whatever was cached there.
fn cache_put(
    cache: &mut Vec<(Address, ConsistencySignal<ConsistencyEvent>)>,
    address: Address,
    signal: ConsistencySignal<ConsistencyEvent>,
)
    ensures
        cache_map(cache_view(final(cache)@)) == cache_map(cache_view(old(cache)@)).insert(
            address@,
            signal@,
        ),
{
    let ghost orig = cache_view(old(cache)@);
    let _ = cache_take(cache, &address);
    let ghost cleared = cache_view(cache@);
    cache.push((address, signal));
    proof {
        assert(cache_view(cache@) =~= cleared.push((address@, signal@)));
        lemma_cache_map_snoc(cleared, (address@, signal@));
        assert(cache_map(cleared).insert(address@, signal@) =~= cache_map(orig).insert(
            address@,
            signal@,
        ));
    }
}

/// The mathematical content of a [`ConsistencyModel`].
#[verifier::ext_equal]
pub struct TrackerModel {
    /// The signal computed at commit time for each address whose publish
    /// has not arrived yet.
    pub cache: Map<Seq<char>, SignalModel>,
    /// The local agent's identity, once its commit was observed.
    pub agent_id: Option<AgentIdModel>,
    /// The reader's context, used for the publishability check.
    pub context: ContextModel,
}

/// A signal with no follow-ups.
pub open spec fn terminal_signal(event: ConsistencyEventModel) -> SignalModel {
    SignalModel { event, pending: Seq::empty() }
}

/// A signal with follow-ups, all in one group.
pub open spec fn pending_signal(
    event: ConsistencyEventModel,
    group: ConsistencyGroup,
    pending: Seq<ConsistencyEventModel>,
) -> SignalModel {
    SignalModel {
        event,
        pending: pending.map_values(|e: ConsistencyEventModel| PendingModel { event: e, group }),
    }
}

/// The type-specific pending effect of a commit: present only when the
/// commit carries a crud-link and its entry kind has one.
pub open spec fn commit_meta(
    entry: EntryModel,
    crud_link: Option<Seq<char>>,
) -> Option<ConsistencyEventModel> {
    match crud_link {
        Some(crud) => match entry.content {
            EntryContentModel::App(_, _) => Some(
                ConsistencyEventModel::UpdateEntry(crud, entry.address),
            ),
            EntryContentModel::Deletion(_) => Some(
                ConsistencyEventModel::RemoveEntry(crud, entry.address),
            ),
            EntryContentModel::LinkAdd(link_data) => Some(
                ConsistencyEventModel::AddLink(link_data),
            ),
            EntryContentModel::LinkRemove(_) => Some(ConsistencyEventModel::RemoveLink(entry)),
            _ => None,
        },
        None => None,
    }
}

/// The signal a commit computes, to be emitted when the matching publish
/// arrives: headline `Publish`, always a pending `Hold` for the
/// validators, plus the type-specific effect where applicable.
pub open spec fn commit_signal_model(entry: EntryModel, crud_link: Option<Seq<char>>) -> SignalModel {
    let events = match commit_meta(entry, crud_link) {
        Some(meta) => seq![ConsistencyEventModel::Hold(entry.address), meta],
        None => seq![ConsistencyEventModel::Hold(entry.address)],
    };
    pending_signal(
        ConsistencyEventModel::Publish(entry.address),
        ConsistencyGroup::Validators,
        events,
    )
}

/// Whether a commit is cached: best-effort — with no state or no DNA the
/// publishability check cannot run and the commit is cached anyway, rather
/// than dropped.
pub open spec fn commit_do_cache(c: ContextModel, entry: EntryModel) -> bool {
    ||| c.state is None
    ||| context_dna(c) is None
    ||| crate::entry::content_can_publish(entry.content, context_dna(c)->Some_0)
}

/// One step of the consistency model: the new tracker state and the signal
/// emitted, for each observed action.
pub open spec fn tracker_step(m: TrackerModel, a: ActionModel) -> (TrackerModel, Option<
    SignalModel,
>) {
    match a {
        ActionModel::Commit((entry, crud_link, _)) => match entry.content {
            EntryContentModel::AgentId(agent) => (
                TrackerModel { agent_id: Some(agent), ..m },
                None,
            ),
            _ => if commit_do_cache(m.context, entry) {
                (
                    TrackerModel {
                        cache: m.cache.insert(entry.address, commit_signal_model(entry, crud_link)),
                        ..m
                    },
                    None,
                )
            } else {
                (m, None)
            },
        },
        ActionModel::Publish(address) => if m.cache.contains_key(address) {
            (TrackerModel { cache: m.cache.remove(address), ..m }, Some(m.cache[address]))
        } else {
            (m, None)
        },
        ActionModel::Hold(ewh) => (
            m,
            Some(terminal_signal(ConsistencyEventModel::Hold(ewh.entry.address))),
        ),
        ActionModel::UpdateEntry((old_address, new_address)) => (
            m,
            Some(terminal_signal(ConsistencyEventModel::UpdateEntry(old_address, new_address))),
        ),
        ActionModel::RemoveEntry((old_address, new_address)) => (
            m,
            Some(terminal_signal(ConsistencyEventModel::RemoveEntry(old_address, new_address))),
        ),
        ActionModel::AddLink(link) => (
            m,
            Some(terminal_signal(ConsistencyEventModel::AddLink(link))),
        ),
        ActionModel::RemoveLink(entry) => (
            m,
            Some(terminal_signal(ConsistencyEventModel::RemoveLink(entry))),
        ),
        ActionModel::AddPendingValidation(pending) => (
            m,
            Some(
                pending_signal(
                    ConsistencyEventModel::AddPendingValidation(
                        pending.entry_with_header.entry.address,
                    ),
                    ConsistencyGroup::Source,
                    seq![
                        ConsistencyEventModel::RemovePendingValidation(
                            pending.entry_with_header.entry.address,
                        ),
                    ],
                ),
            ),
        ),
        ActionModel::RemovePendingValidation((address, _)) => (
            m,
            Some(terminal_signal(ConsistencyEventModel::RemovePendingValidation(address))),
        ),
        ActionModel::SignalZomeFunctionCall(call) => (
            m,
            Some(
                pending_signal(
                    ConsistencyEventModel::SignalZomeFunctionCall(call.id),
                    ConsistencyGroup::Source,
                    seq![ConsistencyEventModel::ReturnZomeFunctionResult(call.id)],
                ),
            ),
        ),
        ActionModel::ReturnZomeFunctionResult(response) => (
            m,
            Some(
                terminal_signal(ConsistencyEventModel::ReturnZomeFunctionResult(response.call.id)),
            ),
        ),
        _ => (m, None),
    }
}

/// The view of an optional emitted signal.
pub open spec fn opt_signal_view(r: Option<ConsistencySignal<ConsistencyEvent>>) -> Option<
    SignalModel,
> {
    match r {
        Some(signal) => Some(signal@),
        None => None,
    }
}

/// Process-scoped state of the consistency model: the commit cache and the
/// local agent identity once learned, against a reader's context.
#[derive(Debug)]
pub struct ConsistencyModel {
    commit_cache: Vec<(Address, ConsistencySignal<ConsistencyEvent>)>,
    agent_id: Option<AgentId>,
    context: Context,
}

impl View for ConsistencyModel {
    type V = TrackerModel;

    closed spec fn view(&self) -> TrackerModel {
        TrackerModel {
            cache: cache_map(cache_view(self.commit_cache@)),
            agent_id: match &self.agent_id {
                Some(agent) => Some(agent@),
                None => None,
            },
            context: self.context@,
        }
    }
}

impl ConsistencyModel {
    /// A fresh model: empty cache, no agent identity yet.
    pub fn new(context: Context) -> (r: ConsistencyModel)
        ensures
            r@.cache == Map::<Seq<char>, SignalModel>::empty(),
            r@.agent_id is None,
            r@.context == context@,
    {
        let r = ConsistencyModel { commit_cache: Vec::new(), agent_id: None, context };
        proof {
            assert(cache_view(r.commit_cache@) =~= Seq::<(Seq<char>, SignalModel)>::empty());
        }
        r
    }

    /// Consumes one action of the stream, in dispatch order, and emits the
    /// signal the consistency table prescribes, if any: exactly one step of
    /// [`tracker_step`].
    pub fn process_action(&mut self, action: &Action) -> (r: Option<
        ConsistencySignal<ConsistencyEvent>,
    >)
        ensures
            final(self)@ == tracker_step(old(self)@, action@).0,
            opt_signal_view(r) == tracker_step(old(self)@, action@).1,
    {
        match action {
            Action::Commit((entry, crud_link, _provenances)) => {
                match &entry.content {
                    EntryContent::AgentId(agent) => {
                        self.agent_id = Some(agent.clone());
                        proof {
                            assert(self@ =~= tracker_step(old(self)@, action@).0);
                        }
                        None
                    },
                    _ => {
                        let do_cache = match self.context.state() {
                            None => true,
                            Some(_) => match self.context.get_dna() {
                                None => true,
                                Some(dna) => entry.content.can_publish(dna),
                            },
                        };
                        if do_cache {
                            let address = entry.address();
                            let hold = ConsistencyEvent::Hold(address.clone());
                            let meta: Option<ConsistencyEvent> = match crud_link {
                                Some(crud) => match &entry.content {
                                    EntryContent::App(_, _) => Some(
                                        ConsistencyEvent::UpdateEntry(
                                            crud.clone(),
                                            address.clone(),
                                        ),
                                    ),
                                    EntryContent::Deletion(_) => Some(
                                        ConsistencyEvent::RemoveEntry(
                                            crud.clone(),
                                            address.clone(),
                                        ),
                                    ),
                                    EntryContent::LinkAdd(link_data) => Some(
                                        ConsistencyEvent::AddLink(link_data.clone()),
                                    ),
                                    EntryContent::LinkRemove(_) => Some(
                                        ConsistencyEvent::RemoveLink(entry.clone()),
                                    ),
                                    _ => None,
                                },
                                None => None,
                            };
                            let mut pending: Vec<ConsistencyEvent> = Vec::new();
                            pending.push(hold);
                            match meta {
                                Some(meta_event) => pending.push(meta_event),
                                None => {},
                            }
                            let signal = ConsistencySignal::new_pending(
                                ConsistencyEvent::Publish(address.clone()),
                                ConsistencyGroup::Validators,
                                pending,
                            );
                            proof {
                                assert(signal@ =~= commit_signal_model(
                                    entry@,
                                    crud_link.deep_view(),
                                ));
                            }
                            cache_put(&mut self.commit_cache, address, signal);
                            proof {
                                assert(self@ =~= tracker_step(old(self)@, action@).0);
                            }
                        }
                        None
                    },
                }
            },
            Action::Publish(address) => cache_take(&mut self.commit_cache, address),
            Action::Hold(ewh) => {
                let signal = ConsistencySignal::new_terminal(
                    ConsistencyEvent::Hold(ewh.entry.address()),
                );
                proof {
                    assert(signal@ =~= tracker_step(old(self)@, action@).1->Some_0);
                }
                Some(signal)
            },
            Action::UpdateEntry((old_address, new_address)) => {
                let signal = ConsistencySignal::new_terminal(
                    ConsistencyEvent::UpdateEntry(old_address.clone(), new_address.clone()),
                );
                proof {
                    assert(signal@ =~= tracker_step(old(self)@, action@).1->Some_0);
                }
                Some(signal)
            },
            Action::RemoveEntry((old_address, new_address)) => {
                let signal = ConsistencySignal::new_terminal(
                    ConsistencyEvent::RemoveEntry(old_address.clone(), new_address.clone()),
                );
                proof {
                    assert(signal@ =~= tracker_step(old(self)@, action@).1->Some_0);
                }
                Some(signal)
            },
            Action::AddLink(link) => {
                let signal = ConsistencySignal::new_terminal(
                    ConsistencyEvent::AddLink(link.clone()),
                );
                proof {
                    assert(signal@ =~= tracker_step(old(self)@, action@).1->Some_0);
                }
                Some(signal)
            },
            Action::RemoveLink(entry) => {
                let signal = ConsistencySignal::new_terminal(
                    ConsistencyEvent::RemoveLink(entry.clone()),
                );
                proof {
                    assert(signal@ =~= tracker_step(old(self)@, action@).1->Some_0);
                }
                Some(signal)
            },
            Action::AddPendingValidation(pending) => {
                let address = pending.entry_with_header.entry.address();
                let mut events: Vec<ConsistencyEvent> = Vec::new();
                events.push(ConsistencyEvent::RemovePendingValidation(address.clone()));
                let signal = ConsistencySignal::new_pending(
                    ConsistencyEvent::AddPendingValidation(address),
                    ConsistencyGroup::Source,
                    events,
                );
                proof {
                    assert(signal@ =~= tracker_step(old(self)@, action@).1->Some_0);
                }
                Some(signal)
            },
            Action::RemovePendingValidation((address, _workflow)) => {
                let signal = ConsistencySignal::new_terminal(
                    ConsistencyEvent::RemovePendingValidation(address.clone()),
                );
                proof {
                    assert(signal@ =~= tracker_step(old(self)@, action@).1->Some_0);
                }
                Some(signal)
            },
            Action::SignalZomeFunctionCall(call) => {
                let mut events: Vec<ConsistencyEvent> = Vec::new();
                events.push(ConsistencyEvent::ReturnZomeFunctionResult(call.id.clone()));
                let signal = ConsistencySignal::new_pending(
                    ConsistencyEvent::SignalZomeFunctionCall(call.id.clone()),
                    ConsistencyGroup::Source,
                    events,
                );
                proof {
                    assert(signal@ =~= tracker_step(old(self)@, action@).1->Some_0);
                }
                Some(signal)
            },
            Action::ReturnZomeFunctionResult(response) => {
                let call = response.call();
                let signal = ConsistencySignal::new_terminal(
                    ConsistencyEvent::ReturnZomeFunctionResult(call.id),
                );
                proof {
                    assert(signal@ =~= tracker_step(old(self)@, action@).1->Some_0);
                }
                Some(signal)
            },
            Action::ResolveDirectConnection(_) => None,
            Action::ShutdownNetwork => None,
        }
    }
}

/// How one event is rendered for out-of-process observers: serde's
/// externally tagged shape, a one-entry object per kind.  Two-address
/// events carry a two-element array; a link carries its fields; a removed
/// link is rendered by the link-remove entry's address.
pub open spec fn event_json(e: ConsistencyEventModel) -> Seq<char> {
    match e {
        ConsistencyEventModel::Publish(a) => "{\"Publish\":"@ + quote_seq(a) + "}"@,
        ConsistencyEventModel::AddPendingValidation(a) => "{\"AddPendingValidation\":"@
            + quote_seq(a) + "}"@,
        ConsistencyEventModel::SignalZomeFunctionCall(id) => "{\"SignalZomeFunctionCall\":"@
            + quote_seq(id) + "}"@,
        ConsistencyEventModel::Hold(a) => "{\"Hold\":"@ + quote_seq(a) + "}"@,
        ConsistencyEventModel::UpdateEntry(a, b) => "{\"UpdateEntry\":["@ + quote_seq(a) + ","@
            + quote_seq(b) + "]}"@,
        ConsistencyEventModel::RemoveEntry(a, b) => "{\"RemoveEntry\":["@ + quote_seq(a) + ","@
            + quote_seq(b) + "]}"@,
        ConsistencyEventModel::AddLink(l) => "{\"AddLink\":{\"base\":"@ + quote_seq(l.base)
            + ",\"target\":"@ + quote_seq(l.target) + ",\"link_type\":"@ + quote_seq(l.link_type)
            + ",\"tag\":"@ + quote_seq(l.tag) + "}}"@,
        ConsistencyEventModel::RemoveLink(entry) => "{\"RemoveLink\":"@ + quote_seq(entry.address)
            + "}"@,
        ConsistencyEventModel::RemovePendingValidation(a) => "{\"RemovePendingValidation\":"@
            + quote_seq(a) + "}"@,
        ConsistencyEventModel::ReturnZomeFunctionResult(id) => "{\"ReturnZomeFunctionResult\":"@
            + quote_seq(id) + "}"@,
    }
}

/// Renders one event as its JSON string.
pub fn event_to_json(event: &ConsistencyEvent) -> (r: String)
    ensures
        r@ == event_json(event@),
{
    let mut out = String::new();
    match event {
        ConsistencyEvent::Publish(a) => {
            proof {
                reveal_strlit("{\"Publish\":");
                reveal_strlit("}");
            }
            out.append("{\"Publish\":");
            let quoted = quote_json_str(a.0.as_str());
            out.append(quoted.as_str());
            out.append("}");
        },
        ConsistencyEvent::AddPendingValidation(a) => {
            proof {
                reveal_strlit("{\"AddPendingValidation\":");
                reveal_strlit("}");
            }
            out.append("{\"AddPendingValidation\":");
            let quoted = quote_json_str(a.0.as_str());
            out.append(quoted.as_str());
            out.append("}");
        },
        ConsistencyEvent::SignalZomeFunctionCall(id) => {
            proof {
                reveal_strlit("{\"SignalZomeFunctionCall\":");
                reveal_strlit("}");
            }
            out.append("{\"SignalZomeFunctionCall\":");
            let quoted = quote_json_str(id.as_str());
            out.append(quoted.as_str());
            out.append("}");
        },
        ConsistencyEvent::Hold(a) => {
            proof {
                reveal_strlit("{\"Hold\":");
                reveal_strlit("}");
            }
            out.append("{\"Hold\":");
            let quoted = quote_json_str(a.0.as_str());
            out.append(quoted.as_str());
            out.append("}");
        },
        ConsistencyEvent::UpdateEntry(a, b) => {
            proof {
                reveal_strlit("{\"UpdateEntry\":[");
                reveal_strlit(",");
                reveal_strlit("]}");
            }
            out.append("{\"UpdateEntry\":[");
            let quoted_a = quote_json_str(a.0.as_str());
            out.append(quoted_a.as_str());
            out.append(",");
            let quoted_b = quote_json_str(b.0.as_str());
            out.append(quoted_b.as_str());
            out.append("]}");
        },
        ConsistencyEvent::RemoveEntry(a, b) => {
            proof {
                reveal_strlit("{\"RemoveEntry\":[");
                reveal_strlit(",");
                reveal_strlit("]}");
            }
            out.append("{\"RemoveEntry\":[");
            let quoted_a = quote_json_str(a.0.as_str());
            out.append(quoted_a.as_str());
            out.append(",");
            let quoted_b = quote_json_str(b.0.as_str());
            out.append(quoted_b.as_str());
            out.append("]}");
        },
        ConsistencyEvent::AddLink(l) => {
            proof {
                reveal_strlit("{\"AddLink\":{\"base\":");
                reveal_strlit(",\"target\":");
                reveal_strlit(",\"link_type\":");
                reveal_strlit(",\"tag\":");
                reveal_strlit("}}");
            }
            out.append("{\"AddLink\":{\"base\":");
            let quoted_base = quote_json_str(l.base.0.as_str());
            out.append(quoted_base.as_str());
            out.append(",\"target\":");
            let quoted_target = quote_json_str(l.target.0.as_str());
            out.append(quoted_target.as_str());
            out.append(",\"link_type\":");
            let quoted_link_type = quote_json_str(l.link_type.as_str());
            out.append(quoted_link_type.as_str());
            out.append(",\"tag\":");
            let quoted_tag = quote_json_str(l.tag.as_str());
            out.append(quoted_tag.as_str());
            out.append("}}");
        },
        ConsistencyEvent::RemoveLink(entry) => {
            proof {
                reveal_strlit("{\"RemoveLink\":");
                reveal_strlit("}");
            }
            out.append("{\"RemoveLink\":");
            let quoted = quote_json_str(entry.address.0.as_str());
            out.append(quoted.as_str());
            out.append("}");
        },
        ConsistencyEvent::RemovePendingValidation(a) => {
            proof {
                reveal_strlit("{\"RemovePendingValidation\":");
                reveal_strlit("}");
            }
            out.append("{\"RemovePendingValidation\":");
            let quoted = quote_json_str(a.0.as_str());
            out.append(quoted.as_str());
            out.append("}");
        },
        ConsistencyEvent::ReturnZomeFunctionResult(id) => {
            proof {
                reveal_strlit("{\"ReturnZomeFunctionResult\":");
                reveal_strlit("}");
            }
            out.append("{\"ReturnZomeFunctionResult\":");
            let quoted = quote_json_str(id.as_str());
            out.append(quoted.as_str());
            out.append("}");
        },
    }
    out
}

impl ConsistencySignal<ConsistencyEvent> {
    /// The export form for out-of-process observers: the headline event and
    /// each pending event independently rendered as JSON strings, groups
    /// kept.
    pub fn to_string_signal(&self) -> (r: ConsistencySignal<String>)
        ensures
            r.event@ == event_json(self@.event),
            r.pending@.len() == self@.pending.len(),
            forall|i: int|
                0 <= i < self@.pending.len() ==> (#[trigger] r.pending@[i]).event@ == event_json(
                    self@.pending[i].event,
                ) && r.pending@[i].group == self@.pending[i].group,
    {
        let event = event_to_json(&self.event);
        let mut pending: Vec<PendingConsistency<String>> = Vec::new();
        let n = self.pending.len();
        let mut i: usize = 0;
        while i < n
            invariant
                n == self.pending.len(),
                i <= n,
                pending@.len() == i,
                forall|j: int|
                    0 <= j < i ==> (#[trigger] pending@[j]).event@ == event_json(
                        self.pending.deep_view()[j].event,
                    ) && pending@[j].group == self.pending.deep_view()[j].group,
            decreases n - i,
        {
            let entry = &self.pending[i];
            proof {
                assert(self.pending.deep_view()[i as int] == self.pending@[i as int]@);
            }
            pending.push(
                PendingConsistency { event: event_to_json(&entry.event), group: entry.group },
            );
            i = i + 1;
        }
        ConsistencySignal { event, pending }
    }
}

/// For any publishable entry committed with no crud-link, the commit
/// followed by the publish of its address emits exactly one signal: no
/// signal at the commit, and at the publish the signal whose headline is
/// that publish and whose pending list is the single `Hold` of the entry's
/// address for the validators.  The address then leaves the cache, so the
/// signal is never re-emitted.
pub proof fn lemma_commit_then_publish_emits_hold(
    m: TrackerModel,
    entry: EntryModel,
    provenances: Seq<crate::signature::ProvenanceModel>,
)
    requires
        !(entry.content is AgentId),
        commit_do_cache(m.context, entry),
    ensures
        ({
            let (m1, out1) = tracker_step(m, ActionModel::Commit((entry, None, provenances)));
            let (m2, out2) = tracker_step(m1, ActionModel::Publish(entry.address));
            &&& out1 is None
            &&& out2 == Some(
                pending_signal(
                    ConsistencyEventModel::Publish(entry.address),
                    ConsistencyGroup::Validators,
                    seq![ConsistencyEventModel::Hold(entry.address)],
                ),
            )
            &&& !m2.cache.contains_key(entry.address)
        }),
{
    let (m1, out1) = tracker_step(m, ActionModel::Commit((entry, None, provenances)));
    assert(m1.cache.contains_key(entry.address));
    assert(m1.cache[entry.address] == commit_signal_model(entry, None));
}

/// For an app-entry update committed with crud-link `link`, the same
/// sequence emits one signal whose pending list holds both the `Hold` and
/// the `UpdateEntry` of the crud-link and the new address.
pub proof fn lemma_commit_update_then_publish(
    m: TrackerModel,
    entry: EntryModel,
    link: Seq<char>,
    provenances: Seq<crate::signature::ProvenanceModel>,
)
    requires
        entry.content is App,
        commit_do_cache(m.context, entry),
    ensures
        ({
            let (m1, out1) = tracker_step(
                m,
                ActionModel::Commit((entry, Some(link), provenances)),
            );
            let (m2, out2) = tracker_step(m1, ActionModel::Publish(entry.address));
            &&& out1 is None
            &&& out2 == Some(
                pending_signal(
                    ConsistencyEventModel::Publish(entry.address),
                    ConsistencyGroup::Validators,
                    seq![
                        ConsistencyEventModel::Hold(entry.address),
                        ConsistencyEventModel::UpdateEntry(link, entry.address),
                    ],
                ),
            )
            &&& !m2.cache.contains_key(entry.address)
        }),
{
    let (m1, out1) = tracker_step(m, ActionModel::Commit((entry, Some(link), provenances)));
    assert(m1.cache.contains_key(entry.address));
    assert(m1.cache[entry.address] == commit_signal_model(entry, Some(link)));
}

/// Publishing an address never locally committed emits no signal and
/// leaves the tracker unchanged; the condition is only logged by the
/// caller, never escalated.
pub proof fn lemma_publish_uncommitted(m: TrackerModel, address: Seq<char>)
    requires
        !m.cache.contains_key(address),
    ensures
        tracker_step(m, ActionModel::Publish(address)).0 == m,
        tracker_step(m, ActionModel::Publish(address)).1 is None,
{
}

/// Only a commit of an entry at an address, or the publish of that
/// address, can change what the cache holds for it; every other action —
/// including commits and publishes of other addresses — leaves the slot
/// alone.  So interleaving unrelated actions between a commit and its
/// publish never alters which signal the publish emits.
pub proof fn lemma_cache_slot_frame(m: TrackerModel, a: ActionModel, address: Seq<char>)
    requires
        !(a matches ActionModel::Commit((entry, _, _)) && entry.address == address),
        !(a matches ActionModel::Publish(p) && p == address),
    ensures
        tracker_step(m, a).0.cache.contains_key(address) == m.cache.contains_key(address),
        m.cache.contains_key(address) ==> tracker_step(m, a).0.cache[address]
            == m.cache[address],
{
}

/// A cached commit signal is removed on the first matching publish and
/// never re-emitted: whatever the first publish of an address emitted, a
/// second publish of the same address emits nothing.
pub proof fn lemma_second_publish_emits_nothing(m: TrackerModel, address: Seq<char>)
    ensures
        tracker_step(tracker_step(m, ActionModel::Publish(address)).0, ActionModel::Publish(address)).1
            is None,
{
}

/// The model run over a whole action stream, in dispatch order: the final
/// tracker state and, for each action, the signal its step emitted.
pub open spec fn tracker_run(m: TrackerModel, actions: Seq<ActionModel>) -> (TrackerModel, Seq<
    Option<SignalModel>,
>)
    decreases actions.len(),
{
    if actions.len() == 0 {
        (m, Seq::empty())
    } else {
        let (m1, out) = tracker_step(m, actions[0]);
        let (m2, outs) = tracker_run(m1, actions.subrange(1, actions.len() as int));
        (m2, seq![out] + outs)
    }
}

/// Emission keeps dispatch order and call-id pairing: over any stream, one
/// signal slot per action; a zome-call announcement at an index emits, at
/// that same index, the signal predicting the return of exactly its own
/// call id; a return at an index emits its terminal signal keyed by its own
/// call id.  With the stream in dispatch order — the channel is FIFO — an
/// announcement therefore precedes its matching return, and distinct ids
/// never mix.
pub proof fn lemma_zome_call_signals_keep_order(
    m: TrackerModel,
    actions: Seq<ActionModel>,
    k: int,
)
    requires
        0 <= k < actions.len(),
    ensures
        tracker_run(m, actions).1.len() == actions.len(),
        actions[k] matches ActionModel::SignalZomeFunctionCall(call) ==> tracker_run(
            m,
            actions,
        ).1[k] == Some(
            pending_signal(
                ConsistencyEventModel::SignalZomeFunctionCall(call.id),
                ConsistencyGroup::Source,
                seq![ConsistencyEventModel::ReturnZomeFunctionResult(call.id)],
            ),
        ),
        actions[k] matches ActionModel::ReturnZomeFunctionResult(response) ==> tracker_run(
            m,
            actions,
        ).1[k] == Some(
            terminal_signal(ConsistencyEventModel::ReturnZomeFunctionResult(response.call.id)),
        ),
    decreases actions.len(),
{
    lemma_tracker_run_len(m, actions);
    let (m1, out) = tracker_step(m, actions[0]);
    let rest = actions.subrange(1, actions.len() as int);
    lemma_tracker_run_len(m1, rest);
    if k == 0 {
        assert(tracker_run(m, actions).1[0] == out);
    } else {
        lemma_zome_call_signals_keep_order(m1, rest, k - 1);
        assert(rest[k - 1] == actions[k]);
        assert(tracker_run(m, actions).1[k] == tracker_run(m1, rest).1[k - 1]);
    }
}

/// A run emits one signal slot per action.
pub proof fn lemma_tracker_run_len(m: TrackerModel, actions: Seq<ActionModel>)
    ensures
        tracker_run(m, actions).1.len() == actions.len(),
    decreases actions.len(),
{
    if actions.len() > 0 {
        let (m1, _) = tracker_step(m, actions[0]);
        lemma_tracker_run_len(m1, actions.subrange(1, actions.len() as int));
    }
}

} // verus!
