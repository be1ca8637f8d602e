//! Capability verifier behaviour: token checks, call signatures, grant
//! lookup and grant admission.

use hc_core::address::Address;
use hc_core::agent::AgentId;
use hc_core::call_zome_function::{
    encode_call_data_for_signing, get_grant, is_token_the_agent, make_call_sig,
    make_cap_request_for_call, verify_call_sig, verify_grant,
};
use hc_core::cap::{CapFunctions, CapTokenGrant, CapabilityRequest, CapabilityType};
use hc_core::entry::{Entry, EntryContent};
use hc_core::json::JsonString;
use hc_core::network::NetworkState;
use hc_core::signature::{Provenance, Signature};
use hc_core::state::{Context, NucleusState, State};
use hc_core::zome_call::ZomeFnCall;

fn test_context(name: &str) -> Context {
    let key = format!("{}-pub-sign-key", name);
    Context::new(AgentId::new(name, &key), None)
}

fn test_context_with_chain(name: &str, chain: Vec<Entry>) -> Context {
    let key = format!("{}-pub-sign-key", name);
    let state = State {
        nucleus: NucleusState::new(),
        agent_chain: chain,
        network: NetworkState::new(),
    };
    Context::new(AgentId::new(name, &key), Some(state))
}

fn dummy_capability_token() -> Address {
    Address::from("fake_token")
}

fn zome_call_valid(context: &Context, token: &Address) -> ZomeFnCall {
    ZomeFnCall::new(
        "test_zome",
        make_cap_request_for_call(context, token.clone(), "test", &JsonString::from("{}")),
        "test",
        "{}",
    )
}

#[test]
fn test_agent_as_token() {
    let context = test_context("alice");
    let agent_token = context.agent_id.address();
    let cap_request = make_cap_request_for_call(
        &context,
        agent_token.clone(),
        "test",
        &JsonString::from("{}"),
    );
    assert!(is_token_the_agent(&context, &cap_request));

    // bogus token should fail
    let cap_request = CapabilityRequest::new(
        Address::from("fake_token"),
        Address::from("someone"),
        Signature::fake(),
    );
    assert!(!is_token_the_agent(&context, &cap_request));
}

#[test]
fn test_call_signatures() {
    let context1 = test_context("alice");
    let context2 = test_context("bob");

    // only exact same call signed by the same person should verify
    let call_sig1 = make_call_sig(&context1, "func", &JsonString::from("{}"));
    let provenance1 = Provenance::new(context1.agent_id.address(), call_sig1.clone());
    assert!(verify_call_sig(&provenance1, "func", &JsonString::from("{}")));
    assert!(!verify_call_sig(&provenance1, "func1", &JsonString::from("{}")));
    assert!(!verify_call_sig(
        &provenance1,
        "func",
        &JsonString::from("{\"x\":1}")
    ));

    let bad_provenance = Provenance::new(context2.agent_id.address(), call_sig1);

    assert!(!verify_call_sig(&bad_provenance, "func", &JsonString::from("{}")));
}

#[test]
fn test_make_cap_request_for_call() {
    let context = test_context("alice");
    let cap_request = make_cap_request_for_call(
        &context,
        dummy_capability_token(),
        "some_fn",
        &JsonString::from("{}"),
    );
    assert_eq!(cap_request.cap_token, dummy_capability_token());
    assert_eq!(
        cap_request.provenance.source().to_string(),
        context.agent_id.pub_sign_key
    );
    assert_eq!(
        cap_request.provenance.signature(),
        make_call_sig(&context, "some_fn", &JsonString::from("{}"))
    );
}

#[test]
fn test_get_grant() {
    let mut cap_functions = CapFunctions::new();
    cap_functions.insert("test_zome".to_string(), vec![String::from("test")]);
    let grant =
        CapTokenGrant::create("foo", CapabilityType::Transferable, None, cap_functions).unwrap();
    let grant_addr = grant.token();
    let grant_entry = Entry::new(grant.token(), EntryContent::CapTokenGrant(grant.clone()));
    let context = test_context_with_chain("alice", vec![grant_entry]);
    let maybe_grant = get_grant(&context, &grant_addr);
    assert_eq!(maybe_grant, Some(grant));
}

#[test]
fn test_get_grant_absent_or_not_a_grant() {
    let context = test_context_with_chain("alice", vec![]);
    assert_eq!(get_grant(&context, &Address::from("nowhere")), None);

    let entry = Entry::new(Address::from("plain"), EntryContent::Dna("app".to_string()));
    let context = test_context_with_chain("alice", vec![entry]);
    assert_eq!(get_grant(&context, &Address::from("plain")), None);

    // no state at all: absence, not an error
    let context = test_context("alice");
    assert_eq!(get_grant(&context, &Address::from("anything")), None);
}

#[test]
fn test_verify_grant() {
    let context = test_context("alice");
    let context2 = test_context("bob");
    let test_address1 = context.agent_id.address();

    let zome_call_from_addr1_bad_token = &ZomeFnCall::new(
        "test_zome",
        make_cap_request_for_call(
            &context,
            Address::from("bad token"),
            "test",
            &JsonString::from("{}"),
        ),
        "test",
        "{}",
    );

    let mut cap_functions = CapFunctions::new();
    cap_functions.insert("test_zome".to_string(), vec![String::from("test")]);

    let grant = CapTokenGrant::create("foo", CapabilityType::Public, None, cap_functions).unwrap();
    let token = grant.token();
    assert!(verify_grant(&grant, &zome_call_valid(&context, &token)));
    assert!(!verify_grant(&grant, zome_call_from_addr1_bad_token));

    let mut cap_functions = CapFunctions::new();
    cap_functions.insert("test_zome".to_string(), vec![String::from("other_fn")]);
    let grant_for_other_fn =
        CapTokenGrant::create("foo", CapabilityType::Transferable, None, cap_functions).unwrap();
    assert!(!verify_grant(
        &grant_for_other_fn,
        &zome_call_valid(&context, &grant_for_other_fn.token())
    ));

    let mut cap_functions = CapFunctions::new();
    cap_functions.insert("test_zome".to_string(), vec![String::from("test")]);
    let grant =
        CapTokenGrant::create("foo", CapabilityType::Transferable, None, cap_functions).unwrap();

    let token = grant.token();
    assert!(!verify_grant(&grant, zome_call_from_addr1_bad_token));

    // call with cap_request for a different function than the zome call
    let zome_call_from_addr1_bad_cap_request = &ZomeFnCall::new(
        "test_zome",
        make_cap_request_for_call(&context, token.clone(), "foo-fn", &JsonString::from("{}")),
        "test",
        "{}",
    );
    assert!(!verify_grant(&grant, zome_call_from_addr1_bad_cap_request));

    assert!(verify_grant(&grant, &zome_call_valid(&context, &token)));
    // should work with same token from a different adddress
    assert!(verify_grant(&grant, &zome_call_valid(&context2, &token)));

    let mut cap_functions = CapFunctions::new();
    cap_functions.insert("test_zome".to_string(), vec![String::from("test")]);
    let grant = CapTokenGrant::create(
        "foo",
        CapabilityType::Assigned,
        Some(vec![test_address1.clone()]),
        cap_functions,
    )
    .unwrap();
    let token = grant.token();
    assert!(!verify_grant(&grant, zome_call_from_addr1_bad_token));

    // call with cap_request for a different function than the zome call
    let zome_call_from_addr1_bad_cap_request = &ZomeFnCall::new(
        "test_zome",
        make_cap_request_for_call(&context, token.clone(), "foo-fn", &JsonString::from("{}")),
        "test",
        "{}",
    );
    assert!(!verify_grant(&grant, zome_call_from_addr1_bad_cap_request));

    assert!(verify_grant(&grant, &zome_call_valid(&context, &token)));
    // should NOT work with same token from a different adddress
    assert!(!verify_grant(&grant, &zome_call_valid(&context2, &token)));
}

#[test]
fn test_encode_call_data_exact() {
    // base64 of "test:{}"
    let encoded = encode_call_data_for_signing("test", &JsonString::from("{}"));
    assert_eq!(encoded, "dGVzdDp7fQ==".to_string());
    // base64 of "func:{}"
    let encoded = encode_call_data_for_signing("func", &JsonString::from("{}"));
    assert_eq!(encoded, "ZnVuYzp7fQ==".to_string());
}

#[test]
fn test_grant_create_shape() {
    // an Assigned grant must name at least one assignee
    let result = CapTokenGrant::create(
        "foo",
        CapabilityType::Assigned,
        None,
        CapFunctions::new(),
    );
    assert!(result.is_err());
    let result = CapTokenGrant::create(
        "foo",
        CapabilityType::Assigned,
        Some(vec![]),
        CapFunctions::new(),
    );
    assert!(result.is_err());
    // a Public grant must name none
    let result = CapTokenGrant::create(
        "foo",
        CapabilityType::Public,
        Some(vec![Address::from("a")]),
        CapFunctions::new(),
    );
    assert!(result.is_err());
    let result = CapTokenGrant::create("foo", CapabilityType::Public, None, CapFunctions::new());
    assert!(result.is_ok());
}
