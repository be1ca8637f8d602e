//! Consistency model behaviour: commit/publish caching, terminal signals,
//! pending signals, call-id pairing and the string export form.

use hc_core::action::{
    Action, ChainHeader, EntryWithHeader, PendingValidation, ValidatingWorkflow,
};
use hc_core::address::Address;
use hc_core::agent::AgentId;
use hc_core::cap::CapabilityRequest;
use hc_core::consistency::{
    ConsistencyEvent, ConsistencyGroup, ConsistencyModel, ConsistencySignal,
};
use hc_core::dna::{Dna, DnaWasm, Zome};
use hc_core::entry::{Entry, EntryContent, LinkData};
use hc_core::json::JsonString;
use hc_core::network::NetworkState;
use hc_core::signature::Signature;
use hc_core::state::{Context, NucleusState, State};
use hc_core::zome_call::{ExecuteZomeFnResponse, ZomeFnCall};

fn bare_context() -> Context {
    Context::new(AgentId::new("alice", "alice-pub-sign-key"), None)
}

fn context_with_dna(public_types: Vec<String>) -> Context {
    let dna = Dna {
        name: "app".to_string(),
        zomes: vec![Zome {
            name: "test_zome".to_string(),
            code: DnaWasm { code: vec![] },
            functions: vec!["test".to_string()],
        }],
        public_app_entry_types: public_types,
    };
    let state = State {
        nucleus: NucleusState {
            dna: Some(dna),
            zome_call_results: vec![],
        },
        agent_chain: vec![],
        network: NetworkState::new(),
    };
    Context::new(AgentId::new("alice", "alice-pub-sign-key"), Some(state))
}

fn app_entry(address: &str) -> Entry {
    Entry::new(
        Address::from(address),
        EntryContent::App("post".to_string(), JsonString::from("{\"text\":\"hi\"}")),
    )
}

fn test_call() -> ZomeFnCall {
    ZomeFnCall::new(
        "test_zome",
        CapabilityRequest::new(
            Address::from("token"),
            Address::from("caller"),
            Signature::fake(),
        ),
        "test",
        "{}",
    )
}

#[test]
fn commit_then_publish_emits_hold_only() {
    // a publishable entry with no crud-link
    let mut model = ConsistencyModel::new(bare_context());
    let entry = app_entry("addr-1");
    let commit = Action::Commit((entry, None, vec![]));
    assert_eq!(model.process_action(&commit), None);

    let signal = model
        .process_action(&Action::Publish(Address::from("addr-1")))
        .expect("publish of a cached commit must emit");
    assert_eq!(signal.event, ConsistencyEvent::Publish(Address::from("addr-1")));
    assert_eq!(signal.pending.len(), 1);
    assert_eq!(
        signal.pending[0].event,
        ConsistencyEvent::Hold(Address::from("addr-1"))
    );
    assert!(matches!(signal.pending[0].group, ConsistencyGroup::Validators));
}

#[test]
fn commit_update_then_publish_emits_hold_and_update() {
    // An app-entry update with a crud-link.
    let mut model = ConsistencyModel::new(bare_context());
    let entry = app_entry("addr-new");
    let commit = Action::Commit((entry, Some(Address::from("addr-old")), vec![]));
    assert_eq!(model.process_action(&commit), None);

    let signal = model
        .process_action(&Action::Publish(Address::from("addr-new")))
        .expect("publish of a cached commit must emit");
    assert_eq!(signal.event, ConsistencyEvent::Publish(Address::from("addr-new")));
    assert_eq!(signal.pending.len(), 2);
    assert_eq!(
        signal.pending[0].event,
        ConsistencyEvent::Hold(Address::from("addr-new"))
    );
    assert_eq!(
        signal.pending[1].event,
        ConsistencyEvent::UpdateEntry(Address::from("addr-old"), Address::from("addr-new"))
    );
    assert!(matches!(signal.pending[1].group, ConsistencyGroup::Validators));
}

#[test]
fn publish_of_uncommitted_address_emits_nothing() {
    let mut model = ConsistencyModel::new(bare_context());
    assert_eq!(
        model.process_action(&Action::Publish(Address::from("never-seen"))),
        None
    );
}

#[test]
fn duplicate_publish_emits_once() {
    let mut model = ConsistencyModel::new(bare_context());
    let commit = Action::Commit((app_entry("addr-1"), None, vec![]));
    model.process_action(&commit);
    assert!(model
        .process_action(&Action::Publish(Address::from("addr-1")))
        .is_some());
    // the cache entry left with the first publish
    assert_eq!(
        model.process_action(&Action::Publish(Address::from("addr-1"))),
        None
    );
}

#[test]
fn second_commit_overwrites_cached_signal() {
    // last-write-wins per address
    let mut model = ConsistencyModel::new(bare_context());
    model.process_action(&Action::Commit((app_entry("addr-1"), None, vec![])));
    model.process_action(&Action::Commit((
        app_entry("addr-1"),
        Some(Address::from("addr-old")),
        vec![],
    )));
    let signal = model
        .process_action(&Action::Publish(Address::from("addr-1")))
        .expect("one signal for the overwritten slot");
    assert_eq!(signal.pending.len(), 2);
    assert_eq!(
        model.process_action(&Action::Publish(Address::from("addr-1"))),
        None
    );
}

#[test]
fn unpublishable_commit_is_not_cached() {
    // with state and DNA available, a private app type is never cached
    let mut model = ConsistencyModel::new(context_with_dna(vec![]));
    model.process_action(&Action::Commit((app_entry("addr-1"), None, vec![])));
    assert_eq!(
        model.process_action(&Action::Publish(Address::from("addr-1"))),
        None
    );
}

#[test]
fn publishable_commit_with_dna_is_cached() {
    let mut model = ConsistencyModel::new(context_with_dna(vec!["post".to_string()]));
    model.process_action(&Action::Commit((app_entry("addr-1"), None, vec![])));
    assert!(model
        .process_action(&Action::Publish(Address::from("addr-1")))
        .is_some());
}

#[test]
fn agent_id_commit_emits_nothing() {
    let mut model = ConsistencyModel::new(bare_context());
    let entry = Entry::new(
        Address::from("alice-pub-sign-key"),
        EntryContent::AgentId(AgentId::new("alice", "alice-pub-sign-key")),
    );
    assert_eq!(model.process_action(&Action::Commit((entry, None, vec![]))), None);
    // and nothing was cached for the agent entry's address
    assert_eq!(
        model.process_action(&Action::Publish(Address::from("alice-pub-sign-key"))),
        None
    );
}

#[test]
fn hold_and_crud_actions_emit_terminal_signals() {
    let mut model = ConsistencyModel::new(bare_context());

    let held = EntryWithHeader {
        entry: app_entry("held-addr"),
        header: ChainHeader {
            entry_address: Address::from("held-addr"),
        },
    };
    let signal = model.process_action(&Action::Hold(held)).unwrap();
    assert_eq!(signal.event, ConsistencyEvent::Hold(Address::from("held-addr")));
    assert!(signal.pending.is_empty());

    let signal = model
        .process_action(&Action::UpdateEntry((
            Address::from("old"),
            Address::from("new"),
        )))
        .unwrap();
    assert_eq!(
        signal.event,
        ConsistencyEvent::UpdateEntry(Address::from("old"), Address::from("new"))
    );
    assert!(signal.pending.is_empty());

    let signal = model
        .process_action(&Action::RemoveEntry((
            Address::from("old"),
            Address::from("del"),
        )))
        .unwrap();
    assert_eq!(
        signal.event,
        ConsistencyEvent::RemoveEntry(Address::from("old"), Address::from("del"))
    );

    let link = LinkData {
        base: Address::from("base"),
        target: Address::from("target"),
        link_type: "child".to_string(),
        tag: "tag".to_string(),
    };
    let signal = model.process_action(&Action::AddLink(link.clone())).unwrap();
    assert_eq!(signal.event, ConsistencyEvent::AddLink(link));
    assert!(signal.pending.is_empty());

    let removal = Entry::new(
        Address::from("rm-addr"),
        EntryContent::LinkRemove(LinkData {
            base: Address::from("base"),
            target: Address::from("target"),
            link_type: "child".to_string(),
            tag: "tag".to_string(),
        }),
    );
    let signal = model
        .process_action(&Action::RemoveLink(removal.clone()))
        .unwrap();
    assert_eq!(signal.event, ConsistencyEvent::RemoveLink(removal));
}

#[test]
fn pending_validation_round_trip() {
    let mut model = ConsistencyModel::new(bare_context());
    let pending = PendingValidation {
        entry_with_header: EntryWithHeader {
            entry: app_entry("val-addr"),
            header: ChainHeader {
                entry_address: Address::from("val-addr"),
            },
        },
        dependencies: vec![],
        workflow: ValidatingWorkflow::HoldEntry,
    };
    let signal = model
        .process_action(&Action::AddPendingValidation(pending))
        .unwrap();
    assert_eq!(
        signal.event,
        ConsistencyEvent::AddPendingValidation(Address::from("val-addr"))
    );
    assert_eq!(signal.pending.len(), 1);
    assert_eq!(
        signal.pending[0].event,
        ConsistencyEvent::RemovePendingValidation(Address::from("val-addr"))
    );
    assert!(matches!(signal.pending[0].group, ConsistencyGroup::Source));

    let signal = model
        .process_action(&Action::RemovePendingValidation((
            Address::from("val-addr"),
            ValidatingWorkflow::HoldEntry,
        )))
        .unwrap();
    assert_eq!(
        signal.event,
        ConsistencyEvent::RemovePendingValidation(Address::from("val-addr"))
    );
    assert!(signal.pending.is_empty());
}

#[test]
fn zome_call_signals_pair_by_id_across_many_calls() {
    // 100 calls with distinct ids: each announcement predicts exactly its
    // own return, and each return is keyed by its own id.
    let mut model = ConsistencyModel::new(bare_context());
    let calls: Vec<ZomeFnCall> = (0..100).map(|_| test_call()).collect();

    let mut seen = std::collections::HashSet::new();
    for call in &calls {
        assert!(seen.insert(call.id.clone()), "ids must be distinct");
    }

    for call in &calls {
        let signal = model
            .process_action(&Action::SignalZomeFunctionCall(call.clone()))
            .unwrap();
        assert_eq!(
            signal.event,
            ConsistencyEvent::SignalZomeFunctionCall(call.id.clone())
        );
        assert_eq!(signal.pending.len(), 1);
        assert_eq!(
            signal.pending[0].event,
            ConsistencyEvent::ReturnZomeFunctionResult(call.id.clone())
        );
        assert!(matches!(signal.pending[0].group, ConsistencyGroup::Source));
    }

    for call in &calls {
        let response =
            ExecuteZomeFnResponse::new(call.clone(), Ok(JsonString::from("\"done\"")));
        let signal = model
            .process_action(&Action::ReturnZomeFunctionResult(response))
            .unwrap();
        assert_eq!(
            signal.event,
            ConsistencyEvent::ReturnZomeFunctionResult(call.id.clone())
        );
        assert!(signal.pending.is_empty());
    }
}

#[test]
fn other_actions_emit_nothing() {
    let mut model = ConsistencyModel::new(bare_context());
    assert_eq!(
        model.process_action(&Action::ResolveDirectConnection("msg-1".to_string())),
        None
    );
    assert_eq!(model.process_action(&Action::ShutdownNetwork), None);
}

#[test]
fn string_export_renders_events_as_json() {
    let signal = ConsistencySignal::new_pending(
        ConsistencyEvent::Publish(Address::from("addr-1")),
        ConsistencyGroup::Validators,
        vec![ConsistencyEvent::Hold(Address::from("addr-1"))],
    );
    let exported = signal.to_string_signal();
    assert_eq!(exported.event, "{\"Publish\":\"addr-1\"}".to_string());
    assert_eq!(exported.pending.len(), 1);
    assert_eq!(
        exported.pending[0].event,
        "{\"Hold\":\"addr-1\"}".to_string()
    );
    assert!(matches!(
        exported.pending[0].group,
        ConsistencyGroup::Validators
    ));

    let signal = ConsistencySignal::new_terminal(ConsistencyEvent::UpdateEntry(
        Address::from("a"),
        Address::from("b"),
    ));
    let exported = signal.to_string_signal();
    assert_eq!(
        exported.event,
        "{\"UpdateEntry\":[\"a\",\"b\"]}".to_string()
    );

    // content needing escapes is escaped
    let signal = ConsistencySignal::new_terminal(ConsistencyEvent::Hold(Address::from(
        "with\"quote\\slash",
    )));
    let exported = signal.to_string_signal();
    assert_eq!(
        exported.event,
        "{\"Hold\":\"with\\\"quote\\\\slash\"}".to_string()
    );
}

#[test]
fn string_export_covers_every_event_kind() {
    let link = LinkData {
        base: Address::from("base"),
        target: Address::from("target"),
        link_type: "child".to_string(),
        tag: "tag".to_string(),
    };
    let removal = Entry::new(
        Address::from("rm-addr"),
        EntryContent::LinkRemove(link.clone()),
    );
    let cases = vec![
        (
            ConsistencyEvent::Publish(Address::from("a")),
            "{\"Publish\":\"a\"}",
        ),
        (
            ConsistencyEvent::AddPendingValidation(Address::from("a")),
            "{\"AddPendingValidation\":\"a\"}",
        ),
        (
            ConsistencyEvent::SignalZomeFunctionCall("id-1".to_string()),
            "{\"SignalZomeFunctionCall\":\"id-1\"}",
        ),
        (
            ConsistencyEvent::Hold(Address::from("a")),
            "{\"Hold\":\"a\"}",
        ),
        (
            ConsistencyEvent::UpdateEntry(Address::from("a"), Address::from("b")),
            "{\"UpdateEntry\":[\"a\",\"b\"]}",
        ),
        (
            ConsistencyEvent::RemoveEntry(Address::from("a"), Address::from("b")),
            "{\"RemoveEntry\":[\"a\",\"b\"]}",
        ),
        (
            ConsistencyEvent::AddLink(link),
            "{\"AddLink\":{\"base\":\"base\",\"target\":\"target\",\"link_type\":\"child\",\"tag\":\"tag\"}}",
        ),
        (
            ConsistencyEvent::RemoveLink(removal),
            "{\"RemoveLink\":\"rm-addr\"}",
        ),
        (
            ConsistencyEvent::RemovePendingValidation(Address::from("a")),
            "{\"RemovePendingValidation\":\"a\"}",
        ),
        (
            ConsistencyEvent::ReturnZomeFunctionResult("id-1".to_string()),
            "{\"ReturnZomeFunctionResult\":\"id-1\"}",
        ),
    ];
    for (event, expected) in cases {
        let exported = ConsistencySignal::new_terminal(event).to_string_signal();
        assert_eq!(exported.event, expected.to_string());
    }
}
