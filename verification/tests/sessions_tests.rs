use std::collections::HashMap;

use mail_sessions::errors::{ErrorKind, StoreError};
use mail_sessions::sessions::{interpret_store_read, GetOutcome, Sessions};

#[test]
fn cache_coherence_insert_then_get() {
    let mut sessions = Sessions::new();
    sessions.insert("id-1".to_string(), 7);
    assert_eq!(sessions.get(&"id-1".to_string()), GetOutcome::Cached(7));
}

#[test]
fn insert_overwrites_existing_entry() {
    let mut sessions = Sessions::new();
    sessions.insert("id-1".to_string(), 7);
    sessions.insert("id-1".to_string(), 8);
    assert_eq!(sessions.get(&"id-1".to_string()), GetOutcome::Cached(8));
}

#[test]
fn cache_coherence_remove_then_get_rehydrates() {
    let mut sessions = Sessions::new();
    sessions.insert("id-1".to_string(), 7);
    sessions.remove(&"id-1".to_string());
    assert_eq!(sessions.get(&"id-1".to_string()), GetOutcome::Rehydrate);
}

#[test]
fn remove_of_absent_entry_is_a_no_op() {
    let mut sessions = Sessions::new();
    sessions.insert("other".to_string(), 3);
    sessions.remove(&"missing".to_string());
    assert_eq!(sessions.get(&"other".to_string()), GetOutcome::Cached(3));
}

#[test]
fn single_flight_one_rehydrator_then_waiters() {
    let mut sessions = Sessions::new();
    let id = "id-1".to_string();
    assert_eq!(sessions.get(&id), GetOutcome::Rehydrate);
    assert_eq!(sessions.get(&id), GetOutcome::AwaitInFlight);
    assert_eq!(sessions.get(&id), GetOutcome::AwaitInFlight);
    sessions.complete_rehydration(&id, 42);
    assert_eq!(sessions.get(&id), GetOutcome::Cached(42));
}

#[test]
fn independent_identifiers_do_not_block_each_other() {
    let mut sessions = Sessions::new();
    assert_eq!(sessions.get(&"id-1".to_string()), GetOutcome::Rehydrate);
    assert_eq!(sessions.get(&"id-2".to_string()), GetOutcome::Rehydrate);
    assert_eq!(sessions.get(&"id-1".to_string()), GetOutcome::AwaitInFlight);
    assert_eq!(sessions.get(&"id-2".to_string()), GetOutcome::AwaitInFlight);
}

#[test]
fn abandoned_rehydration_can_be_retried() {
    let mut sessions = Sessions::new();
    let id = "id-1".to_string();
    assert_eq!(sessions.get(&id), GetOutcome::Rehydrate);
    sessions.abandon_rehydration(&id);
    assert_eq!(sessions.get(&id), GetOutcome::Rehydrate);
}

#[test]
fn store_miss_is_an_unknown_session_not_a_storage_error() {
    let result = interpret_store_read(Err(StoreError::NotFound));
    let error = result.unwrap_err();
    assert!(matches!(
        error.kind(),
        ErrorKind::Keyring(StoreError::NotFound)
    ));
    assert_eq!(error.describe(), "unknown or expired session");
}

#[test]
fn other_store_failure_is_a_storage_error() {
    let result = interpret_store_read(Err(StoreError::Other("bus failure".to_string())));
    let error = result.unwrap_err();
    match error.kind() {
        ErrorKind::Keyring(StoreError::Other(cause)) => assert_eq!(cause, "bus failure"),
        other => panic!("unexpected kind: {:?}", other),
    }
    assert_eq!(error.describe(), "Error with keyring");
}

#[test]
fn successful_store_read_hands_the_payload_through() {
    let result = interpret_store_read(Ok("payload".to_string()));
    assert_eq!(result.unwrap(), "payload");
}

#[test]
fn logout_evicts_cache_but_leaves_store_entry() {
    // The secure store modelled as a plain map: the library never deletes
    // from it, so logout must leave it usable for rehydration.
    let mut store: HashMap<String, String> = HashMap::new();
    let token = "token-1".to_string();
    store.insert(token.clone(), "stored-credentials".to_string());

    let mut sessions = Sessions::new();
    sessions.insert(token.clone(), 5);
    assert_eq!(sessions.get(&token), GetOutcome::Cached(5));

    // Logout: teardown is the caller's call to the engine; the library's
    // part is eviction.
    sessions.remove(&token);

    assert_eq!(store.get(&token).map(String::as_str), Some("stored-credentials"));

    // A later get rehydrates from the untouched store entry.
    assert_eq!(sessions.get(&token), GetOutcome::Rehydrate);
    let payload = interpret_store_read(
        store
            .get(&token)
            .cloned()
            .ok_or(StoreError::NotFound),
    )
    .unwrap();
    assert_eq!(payload, "stored-credentials");
    sessions.complete_rehydration(&token, 6);
    assert_eq!(sessions.get(&token), GetOutcome::Cached(6));
}

#[test]
fn rehydration_scenario_after_restart() {
    // A process restart: the store keeps the payload, the cache starts
    // empty, and exactly one rehydration brings the session back.
    let mut store: HashMap<String, String> = HashMap::new();
    let token = "token-1".to_string();
    store.insert(token.clone(), "stored-credentials".to_string());

    let mut sessions = Sessions::new();
    assert_eq!(sessions.get(&token), GetOutcome::Rehydrate);
    let read = store.get(&token).cloned().ok_or(StoreError::NotFound);
    assert_eq!(interpret_store_read(read).unwrap(), "stored-credentials");
    sessions.complete_rehydration(&token, 11);
    assert_eq!(sessions.get(&token), GetOutcome::Cached(11));
}

#[test]
fn rehydration_of_never_stored_token_fails_as_unknown_session() {
    let store: HashMap<String, String> = HashMap::new();
    let token = "unknown".to_string();

    let mut sessions = Sessions::new();
    assert_eq!(sessions.get(&token), GetOutcome::Rehydrate);
    let read = store.get(&token).cloned().ok_or(StoreError::NotFound);
    let error = interpret_store_read(read).unwrap_err();
    assert_eq!(error.describe(), "unknown or expired session");
    sessions.abandon_rehydration(&token);
    assert_eq!(sessions.get(&token), GetOutcome::Rehydrate);
}
