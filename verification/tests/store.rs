use bss_backend::state::{AppState, Config, Error, RevocationStore};
use std::sync::Arc;

#[test]
fn new_store_is_empty() {
    let store = RevocationStore::new();
    assert!(store.is_empty());
    assert_eq!(store.len(), 0);
    assert!(!store.contains("token"));
    assert_eq!(store.get("token"), None);
}

#[test]
fn insert_makes_a_token_present_with_its_expiry() {
    let mut store = RevocationStore::new();
    store.insert("a", 100);
    assert!(store.contains("a"));
    assert_eq!(store.get("a"), Some(100));
    assert!(!store.contains("b"));
    assert_eq!(store.len(), 1);
}

#[test]
fn insert_of_a_present_token_overwrites_the_expiry() {
    let mut store = RevocationStore::new();
    store.insert("a", 100);
    store.insert("a", 250);
    assert_eq!(store.get("a"), Some(250));
    assert_eq!(store.len(), 1);
}

#[test]
fn insert_twice_with_the_same_expiry_changes_nothing() {
    let mut store = RevocationStore::new();
    store.insert("a", 100);
    store.insert("b", 200);
    store.insert("a", 100);
    assert_eq!(store.len(), 2);
    assert_eq!(store.get("a"), Some(100));
    assert_eq!(store.get("b"), Some(200));
}

#[test]
fn sweep_removes_what_expires_at_or_before_now() {
    let mut store = RevocationStore::new();
    store.insert("early", 99);
    store.insert("exact", 100);
    store.insert("late", 101);
    store.sweep(100);
    assert!(!store.contains("early"));
    assert!(!store.contains("exact"));
    assert!(store.contains("late"));
    assert_eq!(store.get("late"), Some(101));
    assert_eq!(store.len(), 1);
}

#[test]
fn sweep_before_every_expiry_keeps_everything() {
    let mut store = RevocationStore::new();
    store.insert("a", 10);
    store.insert("b", 20);
    store.sweep(9);
    assert_eq!(store.len(), 2);
    assert_eq!(store.get("a"), Some(10));
    assert_eq!(store.get("b"), Some(20));
}

#[test]
fn sweep_after_every_expiry_empties_the_store() {
    let mut store = RevocationStore::new();
    store.insert("a", 10);
    store.insert("b", 20);
    store.sweep(i64::MAX);
    assert!(store.is_empty());
}

#[test]
fn sweep_of_an_empty_store_is_harmless() {
    let mut store = RevocationStore::new();
    store.sweep(0);
    assert!(store.is_empty());
}

#[test]
fn store_works_on_after_a_sweep() {
    let mut store = RevocationStore::new();
    store.insert("a", 10);
    store.insert("b", 20);
    store.sweep(10);
    store.insert("a", 30);
    store.insert("c", 5);
    assert_eq!(store.len(), 3);
    store.sweep(20);
    assert_eq!(store.len(), 1);
    assert_eq!(store.get("a"), Some(30));
    store.sweep(30);
    assert!(store.is_empty());
}

#[test]
fn sweep_handles_many_entries() {
    let mut store = RevocationStore::new();
    for i in 0..1000i64 {
        store.insert(&format!("token-{}", i), i);
    }
    store.sweep(499);
    assert_eq!(store.len(), 500);
    assert!(!store.contains("token-499"));
    assert!(store.contains("token-500"));
}

#[test]
fn new_state_has_no_secret() {
    let state = AppState::new();
    assert!(matches!(state.jwt_secret(), Err(Error::MissingJwtSecret)));
    assert!(state.token_blacklist().is_empty());
}

#[test]
fn state_returns_the_secret_it_was_given() {
    let state = AppState::new().with_jwt_secret(Arc::new("s3cret".to_string()));
    assert_eq!(state.jwt_secret().unwrap().as_str(), "s3cret");
}

#[test]
fn a_later_secret_replaces_an_earlier_one() {
    let state = AppState::new()
        .with_jwt_secret(Arc::new("one".to_string()))
        .with_jwt_secret(Arc::new("two".to_string()));
    assert_eq!(state.jwt_secret().unwrap().as_str(), "two");
}

#[test]
fn configuration_without_secret_is_refused_at_once() {
    let refused = AppState::from_config(Config { jwt_secret: None });
    assert!(matches!(refused, Err(Error::MissingJwtSecret)));
}

#[test]
fn configuration_with_secret_gives_a_fresh_state() {
    let config = Config { jwt_secret: Some(Arc::new("s3cret".to_string())) };
    let state = match AppState::from_config(config) {
        Ok(state) => state,
        Err(error) => panic!("refused: {}", error.message()),
    };
    assert_eq!(state.jwt_secret().unwrap().as_str(), "s3cret");
    assert!(state.token_blacklist().is_empty());
}

#[test]
fn state_revokes_and_sweeps_its_store() {
    let mut state = AppState::new().with_jwt_secret(Arc::new("s".to_string()));
    state.revoke("a", 10);
    state.revoke("b", 20);
    assert_eq!(state.token_blacklist().get("a"), Some(10));
    state.sweep(10);
    assert!(!state.token_blacklist().contains("a"));
    assert!(state.token_blacklist().contains("b"));
    assert_eq!(state.jwt_secret().unwrap().as_str(), "s");
}

#[test]
fn state_errors_describe_themselves() {
    assert_eq!(Error::MissingJwtSecret.message(), "JWT secret is required");
    assert_eq!(
        Error::DatabaseError("pool timed out".to_string()).message(),
        "Database error: pool timed out"
    );
    assert_eq!(Error::DatabaseNotInitialized.message(), "Database connection not initialized");
}
