//! The zome call bridge: validation errors, the self-call bypass, the
//! announce and return actions, and the completion future's poll decision.

use hc_core::action::Action;
use hc_core::address::Address;
use hc_core::agent::AgentId;
use hc_core::call_zome_function::{
    finish_zome_call, make_cap_request_for_call, start_zome_call, validate_call, CallPoll,
    CallResultFuture,
};
use hc_core::cap::{CapFunctions, CapTokenGrant, CapabilityRequest, CapabilityType};
use hc_core::dna::{Dna, DnaWasm, Zome};
use hc_core::entry::{Entry, EntryContent};
use hc_core::error::HolochainError;
use hc_core::json::JsonString;
use hc_core::network::NetworkState;
use hc_core::signature::Signature;
use hc_core::state::{Context, NucleusState, State};
use hc_core::zome_call::ZomeFnCall;

fn test_dna() -> Dna {
    Dna {
        name: "app".to_string(),
        zomes: vec![Zome {
            name: "test_zome".to_string(),
            code: DnaWasm {
                code: vec![0, 1, 2],
            },
            functions: vec!["test".to_string()],
        }],
        public_app_entry_types: vec![],
    }
}

fn context_with(dna: Option<Dna>, chain: Vec<Entry>) -> Context {
    let state = State {
        nucleus: NucleusState {
            dna,
            zome_call_results: vec![],
        },
        agent_chain: chain,
        network: NetworkState::new(),
    };
    Context::new(AgentId::new("alice", "alice-pub-sign-key"), Some(state))
}

fn self_call(context: &Context) -> ZomeFnCall {
    // token = the agent's own public signing key, self-signed
    let token = context.agent_id.address();
    ZomeFnCall::new(
        "test_zome",
        make_cap_request_for_call(context, token, "test", &JsonString::from("{}")),
        "test",
        "{}",
    )
}

#[test]
fn validate_call_without_state_fails() {
    let context = Context::new(AgentId::new("alice", "alice-pub-sign-key"), None);
    let call = self_call(&context);
    assert_eq!(
        validate_call(&context, &call),
        Err(HolochainError::ErrorGeneric(
            "Context not initialized".to_string()
        ))
    );
}

#[test]
fn validate_call_without_dna_fails() {
    let context = context_with(None, vec![]);
    let call = self_call(&context);
    assert_eq!(validate_call(&context, &call), Err(HolochainError::DnaMissing));
}

#[test]
fn validate_call_unknown_zome_and_function_fail() {
    let context = context_with(Some(test_dna()), vec![]);
    let token = context.agent_id.address();
    let call = ZomeFnCall::new(
        "missing_zome",
        make_cap_request_for_call(&context, token.clone(), "test", &JsonString::from("{}")),
        "test",
        "{}",
    );
    assert_eq!(
        validate_call(&context, &call),
        Err(HolochainError::Dna("Zome 'missing_zome' not found".to_string()))
    );

    let call = ZomeFnCall::new(
        "test_zome",
        make_cap_request_for_call(&context, token, "missing_fn", &JsonString::from("{}")),
        "missing_fn",
        "{}",
    );
    assert_eq!(
        validate_call(&context, &call),
        Err(HolochainError::Dna(
            "Zome function 'missing_fn' not found in Zome 'test_zome'".to_string()
        ))
    );
}

#[test]
fn self_call_bypass_succeeds_without_a_grant() {
    // end to end: no authored grant, the token is the agent's own key
    let context = context_with(Some(test_dna()), vec![]);
    let call = self_call(&context);
    let (dna_name, code) = validate_call(&context, &call).expect("self-call must pass");
    assert_eq!(dna_name, "app".to_string());
    assert_eq!(code.code, vec![0, 1, 2]);
}

#[test]
fn unknown_token_fails_capability_check() {
    // the same call with a token matching neither a grant nor the agent key
    let context = context_with(Some(test_dna()), vec![]);
    let call = ZomeFnCall::new(
        "test_zome",
        make_cap_request_for_call(
            &context,
            Address::from("no-such-token"),
            "test",
            &JsonString::from("{}"),
        ),
        "test",
        "{}",
    );
    assert_eq!(
        validate_call(&context, &call),
        Err(HolochainError::CapabilityCheckFailed)
    );
}

#[test]
fn granted_call_passes_via_chain_lookup() {
    let mut cap_functions = CapFunctions::new();
    cap_functions.insert("test_zome".to_string(), vec!["test".to_string()]);
    let grant =
        CapTokenGrant::create("foo", CapabilityType::Transferable, None, cap_functions).unwrap();
    let grant_entry = Entry::new(grant.token(), EntryContent::CapTokenGrant(grant.clone()));
    let context = context_with(Some(test_dna()), vec![grant_entry]);
    let call = ZomeFnCall::new(
        "test_zome",
        make_cap_request_for_call(&context, grant.token(), "test", &JsonString::from("{}")),
        "test",
        "{}",
    );
    assert!(validate_call(&context, &call).is_ok());
}

#[test]
fn forged_signature_fails_even_with_agent_token() {
    let context = context_with(Some(test_dna()), vec![]);
    let call = ZomeFnCall::new(
        "test_zome",
        CapabilityRequest::new(
            context.agent_id.address(),
            context.agent_id.address(),
            Signature::fake(),
        ),
        "test",
        "{}",
    );
    assert_eq!(
        validate_call(&context, &call),
        Err(HolochainError::CapabilityCheckFailed)
    );
}

#[test]
fn start_zome_call_announces_the_call() {
    let context = context_with(Some(test_dna()), vec![]);
    let call = self_call(&context);
    let (action, (dna_name, _code)) =
        start_zome_call(&context, &call).expect("validated call starts");
    assert_eq!(dna_name, "app".to_string());
    match action {
        Action::SignalZomeFunctionCall(announced) => assert_eq!(announced.id, call.id),
        other => panic!("expected the announce action, got {:?}", other),
    }
}

#[test]
fn finish_zome_call_returns_the_result() {
    let context = context_with(Some(test_dna()), vec![]);
    let call = self_call(&context);
    let action = finish_zome_call(&call, Ok(JsonString::from("\"done\"")));
    match action {
        Action::ReturnZomeFunctionResult(response) => {
            assert_eq!(response.call().id, call.id);
            assert_eq!(response.result(), Ok(JsonString::from("\"done\"")));
        }
        other => panic!("expected the return action, got {:?}", other),
    }
}

#[test]
fn poll_decides_from_snapshot_and_channel() {
    let context = context_with(Some(test_dna()), vec![]);
    let call = self_call(&context);

    // no result yet: pending
    let future = CallResultFuture {
        context,
        zome_call: call.clone(),
    };
    assert!(matches!(future.poll_result(None), CallPoll::Pending));

    // a closed channel resolves immediately, result or not
    match future.poll_result(Some(HolochainError::ActionChannelClosed)) {
        CallPoll::Ready(Err(HolochainError::ActionChannelClosed)) => {}
        other => panic!("expected the channel error, got {:?}", other),
    }

    // a recorded result resolves the future
    let mut state = State {
        nucleus: NucleusState {
            dna: Some(test_dna()),
            zome_call_results: vec![],
        },
        agent_chain: vec![],
        network: NetworkState::new(),
    };
    state
        .nucleus
        .zome_call_results
        .push((call.id.clone(), Ok(JsonString::from("\"done\""))));
    let context = Context::new(AgentId::new("alice", "alice-pub-sign-key"), Some(state));
    let future = CallResultFuture {
        context,
        zome_call: call,
    };
    match future.poll_result(None) {
        CallPoll::Ready(Ok(json)) => assert_eq!(json, JsonString::from("\"done\"")),
        other => panic!("expected the recorded result, got {:?}", other),
    }

    // no state at all: the state-not-initialized error
    let context = Context::new(AgentId::new("alice", "alice-pub-sign-key"), None);
    let future = CallResultFuture {
        context,
        zome_call: self_call(&Context::new(
            AgentId::new("alice", "alice-pub-sign-key"),
            None,
        )),
    };
    match future.poll_result(None) {
        CallPoll::Ready(Err(HolochainError::ErrorGeneric(msg))) => {
            assert_eq!(msg, "State not initialized".to_string())
        }
        other => panic!("expected the uninitialized error, got {:?}", other),
    }
}
