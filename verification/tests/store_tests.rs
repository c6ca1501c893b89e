use controller_core::store::{NvsStore, StrKey};

#[test]
fn values_are_stored_and_read_back_by_key() {
    let mut store = NvsStore::new();
    assert!(store.get_str(StrKey::Username).is_none());
    assert!(store.get_provisioned().is_none());

    store.set_str(StrKey::Username, "op").unwrap();
    store.set_str(StrKey::PasswordHash, "abcd").unwrap();
    store.set_str(StrKey::Salt, "00ff").unwrap();
    store.set_provisioned(1).unwrap();
    store.commit().unwrap();

    assert_eq!(store.get_str(StrKey::Username).as_deref(), Some("op"));
    assert_eq!(store.get_str(StrKey::PasswordHash).as_deref(), Some("abcd"));
    assert_eq!(store.get_str(StrKey::Salt).as_deref(), Some("00ff"));
    assert_eq!(store.get_provisioned(), Some(1));
}

#[test]
fn removal_is_per_key_and_tolerant() {
    let mut store = NvsStore::new();
    // Removing a value that was never set is fine.
    store.remove(StrKey::Salt).unwrap();

    store.set_str(StrKey::Username, "op").unwrap();
    store.set_str(StrKey::Salt, "00ff").unwrap();
    store.remove(StrKey::Salt).unwrap();

    assert!(store.get_str(StrKey::Salt).is_none());
    assert_eq!(store.get_str(StrKey::Username).as_deref(), Some("op"));
}

#[test]
fn an_unhealthy_store_fails_writes_without_changing_anything() {
    let mut store = NvsStore::new();
    store.set_str(StrKey::Username, "op").unwrap();

    store.healthy = false;
    assert!(store.set_str(StrKey::Username, "intruder").is_err());
    assert!(store.set_provisioned(1).is_err());
    assert!(store.remove(StrKey::Username).is_err());
    assert!(store.commit().is_err());

    assert_eq!(store.get_str(StrKey::Username).as_deref(), Some("op"));
    assert!(store.get_provisioned().is_none());
}
