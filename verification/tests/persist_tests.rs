use controller_core::credentials::Credentials;
use controller_core::persist::{
    clear_persistent_credentials, load_persistent_state, persist_credentials_state,
};
use controller_core::store::{NvsStore, StrKey};

#[test]
fn store_then_load_round_trips() {
    let mut store = NvsStore::new();
    let credentials = Credentials::with_password("op", "poolwater1");

    persist_credentials_state(&credentials, true, &mut store).unwrap();

    let loaded = load_persistent_state(&store).expect("record should load");
    assert!(loaded.provisioned);
    assert_eq!(loaded.credentials.username, credentials.username);
    assert_eq!(loaded.credentials.password_hash, credentials.password_hash);
    assert_eq!(loaded.credentials.salt, credentials.salt);
    assert!(loaded.credentials.token.is_none());
}

#[test]
fn clear_then_load_gives_none() {
    let mut store = NvsStore::new();
    let credentials = Credentials::with_password("op", "poolwater1");
    persist_credentials_state(&credentials, true, &mut store).unwrap();

    clear_persistent_credentials(&mut store).unwrap();
    assert!(load_persistent_state(&store).is_none());
    assert!(store.username.is_none());
    assert!(store.password_hash.is_none());
    assert!(store.salt_hex.is_none());
    assert_eq!(store.provisioned, Some(0));
}

#[test]
fn empty_store_loads_nothing() {
    let store = NvsStore::new();
    assert!(load_persistent_state(&store).is_none());
}

#[test]
fn unprovisioned_marker_hides_partial_records() {
    let mut store = NvsStore::new();
    store.set_str(StrKey::Username, "op").unwrap();
    store.set_str(StrKey::PasswordHash, "ab".repeat(32).as_str()).unwrap();
    store.set_str(StrKey::Salt, "ab".repeat(16).as_str()).unwrap();
    // No provisioned marker: the record must not be interpreted as valid.
    assert!(load_persistent_state(&store).is_none());

    store.set_provisioned(0).unwrap();
    assert!(load_persistent_state(&store).is_none());

    store.set_provisioned(1).unwrap();
    assert!(load_persistent_state(&store).is_some());
}

#[test]
fn missing_fields_load_as_unprovisioned() {
    let mut store = NvsStore::new();
    store.set_provisioned(1).unwrap();
    assert!(load_persistent_state(&store).is_none());

    store.set_str(StrKey::Username, "op").unwrap();
    assert!(load_persistent_state(&store).is_none());

    store.set_str(StrKey::PasswordHash, "ab".repeat(32).as_str()).unwrap();
    assert!(load_persistent_state(&store).is_none());
}

#[test]
fn corrupt_salt_loads_as_unprovisioned() {
    let mut store = NvsStore::new();
    store.set_str(StrKey::Username, "op").unwrap();
    store.set_str(StrKey::PasswordHash, "ab".repeat(32).as_str()).unwrap();
    store.set_provisioned(1).unwrap();

    // Not hex at all.
    store.set_str(StrKey::Salt, "not-hex!").unwrap();
    assert!(load_persistent_state(&store).is_none());

    // Valid hex of the wrong length.
    store.set_str(StrKey::Salt, "abcd").unwrap();
    assert!(load_persistent_state(&store).is_none());

    // Odd length.
    store.set_str(StrKey::Salt, "abc").unwrap();
    assert!(load_persistent_state(&store).is_none());
}

#[test]
fn failed_writes_change_nothing() {
    let mut store = NvsStore::new();
    let credentials = Credentials::with_password("op", "poolwater1");
    persist_credentials_state(&credentials, true, &mut store).unwrap();

    store.healthy = false;
    let replacement = Credentials {
        username: "intruder".to_owned(),
        password_hash: credentials.password_hash.clone(),
        salt: credentials.salt.clone(),
        token: None,
    };
    assert!(persist_credentials_state(&replacement, true, &mut store).is_err());
    assert!(clear_persistent_credentials(&mut store).is_err());

    store.healthy = true;
    let loaded = load_persistent_state(&store).expect("record should still load");
    assert_eq!(loaded.credentials.username, "op");
}
