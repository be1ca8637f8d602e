//! Network state tracker behaviour: the initialized check and the three
//! lookups of outstanding work.

use hc_core::address::Address;
use hc_core::error::HolochainError;
use hc_core::network::{
    DirectMessage, NetworkHandle, NetworkState, QueryKey, ValidationPackage,
};

fn not_initialized() -> HolochainError {
    HolochainError::ErrorGeneric("Network not initialized".to_string())
}

#[test]
fn initialized_iff_handle_dna_and_agent_set() {
    let mut state = NetworkState::new();
    assert_eq!(state.initialized(), Err(not_initialized()));

    state.network = Some(NetworkHandle {
        id: "transport-1".to_string(),
    });
    assert_eq!(state.initialized(), Err(not_initialized()));

    state.dna_address = Some(Address::from("dna-addr"));
    assert_eq!(state.initialized(), Err(not_initialized()));

    state.agent_id = Some("alice".to_string());
    assert_eq!(state.initialized(), Ok(()));

    // dropping the handle uninitializes again
    state.network = None;
    assert_eq!(state.initialized(), Err(not_initialized()));
}

#[test]
fn validation_package_lookup_has_four_states() {
    let mut state = NetworkState::new();
    let addr = Address::from("entry-addr");

    // never asked
    assert!(state.get_validation_package_result(&addr).is_none());

    // asked, awaiting the network
    state
        .get_validation_package_results
        .push((Address::from("entry-addr"), None));
    assert_eq!(state.get_validation_package_result(&addr), Some(&None));

    // a terminal answer for another address does not shadow it
    state.get_validation_package_results.push((
        Address::from("other-addr"),
        Some(Ok(Some(ValidationPackage {
            chain_header_address: Address::from("header-addr"),
        }))),
    ));
    assert_eq!(state.get_validation_package_result(&addr), Some(&None));

    let answered = state
        .get_validation_package_result(&Address::from("other-addr"))
        .expect("asked");
    match answered {
        Some(Ok(Some(package))) => {
            assert_eq!(package.chain_header_address, Address::from("header-addr"))
        }
        other => panic!("unexpected ledger state: {:?}", other),
    }

    // a terminal failure
    let mut state = NetworkState::new();
    state.get_validation_package_results.push((
        Address::from("entry-addr"),
        Some(Err(HolochainError::ErrorGeneric("timeout".to_string()))),
    ));
    match state.get_validation_package_result(&addr) {
        Some(Some(Err(e))) => assert_eq!(
            *e,
            HolochainError::ErrorGeneric("timeout".to_string())
        ),
        other => panic!("unexpected ledger state: {:?}", other),
    }
}

#[test]
fn query_lookup_is_keyed_by_address_and_id() {
    let mut state = NetworkState::new();
    let key = QueryKey {
        address: Address::from("entry-addr"),
        id: "query-1".to_string(),
    };
    assert!(state.get_query_result(&key).is_none());

    state.get_query_results.push((
        QueryKey {
            address: Address::from("entry-addr"),
            id: "query-1".to_string(),
        },
        None,
    ));
    assert_eq!(state.get_query_result(&key), Some(&None));

    // same address, different id: unasked
    let other = QueryKey {
        address: Address::from("entry-addr"),
        id: "query-2".to_string(),
    };
    assert!(state.get_query_result(&other).is_none());
}

#[test]
fn direct_message_lookup_by_id() {
    let mut state = NetworkState::new();
    assert!(state.open_direct_message(&"msg-1".to_string()).is_none());

    state.direct_message_connections.push((
        "msg-1".to_string(),
        DirectMessage::Custom {
            zome: "test_zome".to_string(),
            payload: "{\"ping\":true}".to_string(),
        },
    ));
    match state.open_direct_message(&"msg-1".to_string()) {
        Some(DirectMessage::Custom { zome, payload }) => {
            assert_eq!(zome, "test_zome");
            assert_eq!(payload, "{\"ping\":true}");
        }
        other => panic!("unexpected conversation: {:?}", other),
    }
    assert!(state.open_direct_message(&"msg-2".to_string()).is_none());
}

#[test]
fn new_ledger_records_nothing() {
    let state = NetworkState::new();
    assert!(state.actions().is_empty());
    assert!(state.get_query_results.is_empty());
    assert!(state.get_validation_package_results.is_empty());
    assert!(state.direct_message_connections.is_empty());
    assert!(state.custom_direct_message_replys.is_empty());
}
