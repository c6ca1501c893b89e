use controller_core::auth::{authorize_at, unauthorized_response, AuthorizationFailure};
use controller_core::handlers::{
    change_password, factory_reset, login, logout, provision, provisioning_status,
    save_wifi_config, set_defaults, set_relay_state, FactoryResetOutcome, LoginOutcome,
    PasswordChangeOutcome, ProvisionOutcome, RelayOutcome, WifiSaveOutcome,
};
use controller_core::state::AppState;
use controller_core::store::NvsStore;

fn fresh() -> (AppState, NvsStore) {
    let store = NvsStore::new();
    let state = AppState::from_store(&store);
    (state, store)
}

#[test]
fn provisioning_succeeds_once_with_a_hex_token() {
    let (mut state, mut store) = fresh();
    assert!(!provisioning_status(&state).provisioned);

    let outcome = provision(&mut state, &mut store, Some("op"), "poolwater1");
    let (token, username) = match outcome {
        ProvisionOutcome::Provisioned { ref token, ref username } => {
            (token.clone(), username.clone())
        }
        _ => panic!("provisioning should succeed"),
    };
    assert_eq!(outcome.status_code(), 200);
    assert_eq!(username, "op");
    assert_eq!(token.len(), 64);
    assert!(token.chars().all(|c| c.is_ascii_hexdigit()));

    let status = provisioning_status(&state);
    assert!(status.provisioned);
    assert_eq!(status.username.as_deref(), Some("op"));
}

#[test]
fn provisioning_is_one_way() {
    let (mut state, mut store) = fresh();
    match provision(&mut state, &mut store, Some("op"), "poolwater1") {
        ProvisionOutcome::Provisioned { .. } => {}
        _ => panic!("first provisioning should succeed"),
    }
    let stored_hash = store.password_hash.clone().unwrap();

    // A second attempt is refused regardless of payload, and the stored
    // credential is unchanged.
    let second = provision(&mut state, &mut store, Some("other"), "differentpassword");
    assert!(matches!(second, ProvisionOutcome::AlreadyProvisioned));
    assert_eq!(second.status_code(), 409);
    assert_eq!(store.password_hash.as_deref(), Some(stored_hash.as_str()));
    assert_eq!(state.credentials.username, "op");
}

#[test]
fn provisioning_rejects_weak_passwords() {
    let (mut state, mut store) = fresh();
    let outcome = provision(&mut state, &mut store, Some("op"), "short");
    assert!(matches!(outcome, ProvisionOutcome::WeakPassword));
    assert_eq!(outcome.status_code(), 400);
    assert!(!state.provisioned);
    assert!(store.password_hash.is_none());

    // Whitespace does not count toward the minimum length.
    let padded = provision(&mut state, &mut store, Some("op"), "   pw   ");
    assert!(matches!(padded, ProvisionOutcome::WeakPassword));
}

#[test]
fn provisioning_defaults_the_username() {
    let (mut state, mut store) = fresh();
    match provision(&mut state, &mut store, None, "poolwater1") {
        ProvisionOutcome::Provisioned { username, .. } => assert_eq!(username, "admin"),
        _ => panic!("provisioning should succeed"),
    }
    assert_eq!(state.credentials.username, "admin");
}

#[test]
fn provisioning_failure_rolls_back_and_stays_retryable() {
    let (mut state, mut store) = fresh();
    store.healthy = false;

    let outcome = provision(&mut state, &mut store, Some("op"), "poolwater1");
    assert!(matches!(outcome, ProvisionOutcome::PersistFailed));
    assert_eq!(outcome.status_code(), 500);
    assert!(!state.provisioned);
    assert!(store.username.is_none());

    // Once the store works again the same request goes through.
    store.healthy = true;
    let retried = provision(&mut state, &mut store, Some("op"), "poolwater1");
    assert!(matches!(retried, ProvisionOutcome::Provisioned { .. }));
    assert!(state.provisioned);
}

#[test]
fn scenario_bearer_token_guards_protected_endpoints() {
    let (mut state, mut store) = fresh();
    let token = match provision(&mut state, &mut store, Some("op"), "poolwater1") {
        ProvisionOutcome::Provisioned { token, .. } => token,
        _ => panic!("provisioning should succeed"),
    };
    assert_eq!(token.len(), 64);
    let now = state.credentials.token.as_ref().unwrap().last_seen;

    // With the bearer header the request is authorized.
    let header = format!("Bearer {token}");
    assert!(authorize_at(Some(&header), &mut state.credentials, now).is_ok());

    // With no header it refuses with the invalid-token challenge.
    let missing = authorize_at(None, &mut state.credentials, now).unwrap_err();
    assert_eq!(missing, AuthorizationFailure::Missing);
    let response = unauthorized_response(missing);
    assert_eq!(response.status, 401);
    assert_eq!(response.www_authenticate, "Bearer error=\"invalid_token\"");
    assert!(!response.session_expired);

    // After forcing the session idle past the timeout, authorization reports
    // the expired session, with the marker header set, and consumes it.
    state.credentials.token.as_mut().unwrap().last_seen = now.checked_sub(901).unwrap();
    let expired = authorize_at(Some(&header), &mut state.credentials, now).unwrap_err();
    assert_eq!(expired, AuthorizationFailure::Expired);
    let response = unauthorized_response(expired);
    assert_eq!(response.status, 401);
    assert_eq!(
        response.www_authenticate,
        "Bearer error=\"invalid_token\", error_description=\"session expired\""
    );
    assert!(response.session_expired);

    // The expired session was consumed: the same token is now just invalid.
    let after = authorize_at(Some(&header), &mut state.credentials, now).unwrap_err();
    assert_eq!(after, AuthorizationFailure::Invalid);
}

#[test]
fn scenario_wrong_password_changes_nothing() {
    let (mut state, mut store) = fresh();
    match provision(&mut state, &mut store, Some("op"), "poolwater1") {
        ProvisionOutcome::Provisioned { .. } => {}
        _ => panic!("provisioning should succeed"),
    }
    let stored_hash = state.credentials.password_hash.clone();

    for _ in 0..3 {
        let outcome = login(&mut state, "op", "wrong-password");
        assert!(matches!(outcome, LoginOutcome::InvalidCredentials));
        assert_eq!(outcome.status_code(), 401);
    }

    assert!(state.provisioned);
    assert_eq!(state.credentials.password_hash, stored_hash);
}

#[test]
fn reboot_restores_a_working_credential() {
    let (mut state, mut store) = fresh();
    match provision(&mut state, &mut store, Some("op"), "poolwater1") {
        ProvisionOutcome::Provisioned { .. } => {}
        _ => panic!("provisioning should succeed"),
    }

    // Simulate a restart: rebuild the state from the durable store alone.
    let mut rebooted = AppState::from_store(&store);
    assert!(rebooted.provisioned);
    assert_eq!(rebooted.credentials.salt, state.credentials.salt);
    match login(&mut rebooted, "op", "poolwater1") {
        LoginOutcome::LoggedIn { .. } => {}
        _ => panic!("the password should log in after a restart"),
    }
}

#[test]
fn login_requires_provisioning_and_exact_username() {
    let (mut state, mut store) = fresh();

    let locked = login(&mut state, "admin", "admin");
    assert!(matches!(locked, LoginOutcome::NotProvisioned));
    assert_eq!(locked.status_code(), 423);

    match provision(&mut state, &mut store, Some("op"), "poolwater1") {
        ProvisionOutcome::Provisioned { .. } => {}
        _ => panic!("provisioning should succeed"),
    }

    // Unknown username and wrong password give the identical answer.
    let unknown = login(&mut state, "OP", "poolwater1");
    assert!(matches!(unknown, LoginOutcome::InvalidCredentials));
    assert_eq!(unknown.status_code(), 401);

    let good = login(&mut state, "op", "poolwater1");
    match good {
        LoginOutcome::LoggedIn { ref token } => assert_eq!(token.len(), 64),
        _ => panic!("login should succeed"),
    }
}

#[test]
fn login_replaces_the_previous_session() {
    let (mut state, mut store) = fresh();
    let first = match provision(&mut state, &mut store, Some("op"), "poolwater1") {
        ProvisionOutcome::Provisioned { token, .. } => token,
        _ => panic!("provisioning should succeed"),
    };
    let second = match login(&mut state, "op", "poolwater1") {
        LoginOutcome::LoggedIn { token } => token,
        _ => panic!("login should succeed"),
    };
    assert_ne!(first, second);

    let now = state.credentials.token.as_ref().unwrap().last_seen;
    let old_header = format!("Bearer {first}");
    let refused = authorize_at(Some(&old_header), &mut state.credentials, now).unwrap_err();
    assert_eq!(refused, AuthorizationFailure::Invalid);
}

#[test]
fn logout_clears_the_session_behind_the_gate() {
    let (mut state, mut store) = fresh();
    let token = match provision(&mut state, &mut store, Some("op"), "poolwater1") {
        ProvisionOutcome::Provisioned { token, .. } => token,
        _ => panic!("provisioning should succeed"),
    };
    let now = state.credentials.token.as_ref().unwrap().last_seen;
    let header = format!("Bearer {token}");

    assert!(logout(Some(&header), &mut state, now).is_ok());
    assert!(state.credentials.token.is_none());

    // A second logout fails authorization: the session is gone.
    let refused = logout(Some(&header), &mut state, now).unwrap_err();
    assert_eq!(refused, AuthorizationFailure::Invalid);
}

#[test]
fn password_change_requires_the_current_password() {
    let (mut state, mut store) = fresh();
    match provision(&mut state, &mut store, Some("op"), "poolwater1") {
        ProvisionOutcome::Provisioned { .. } => {}
        _ => panic!("provisioning should succeed"),
    }

    let empty = change_password(&mut state, &mut store, "poolwater1", "   ");
    assert!(matches!(empty, PasswordChangeOutcome::EmptyNewPassword));
    assert_eq!(empty.status_code(), 400);

    let wrong = change_password(&mut state, &mut store, "not-the-password", "newpassword1");
    assert!(matches!(wrong, PasswordChangeOutcome::WrongPassword));
    assert_eq!(wrong.status_code(), 401);
    assert!(state.credentials.token.is_some());
}

#[test]
fn password_change_rotates_the_credential_and_ends_the_session() {
    let (mut state, mut store) = fresh();
    match provision(&mut state, &mut store, Some("op"), "poolwater1") {
        ProvisionOutcome::Provisioned { .. } => {}
        _ => panic!("provisioning should succeed"),
    }
    let old_salt = state.credentials.salt.clone();

    let changed = change_password(&mut state, &mut store, "poolwater1", "newpassword1");
    assert!(matches!(changed, PasswordChangeOutcome::Changed));
    assert_eq!(changed.status_code(), 200);
    assert!(state.credentials.token.is_none());
    // Salt and hash are regenerated together.
    assert_ne!(state.credentials.salt, old_salt);
    assert_eq!(
        store.password_hash.as_deref(),
        Some(state.credentials.password_hash.as_str())
    );

    match login(&mut state, "op", "newpassword1") {
        LoginOutcome::LoggedIn { .. } => {}
        _ => panic!("the new password should log in"),
    }
}

#[test]
fn password_change_rolls_back_on_persistence_failure() {
    let (mut state, mut store) = fresh();
    match provision(&mut state, &mut store, Some("op"), "poolwater1") {
        ProvisionOutcome::Provisioned { .. } => {}
        _ => panic!("provisioning should succeed"),
    }
    let old_hash = state.credentials.password_hash.clone();

    store.healthy = false;
    let failed = change_password(&mut state, &mut store, "poolwater1", "newpassword1");
    assert!(matches!(failed, PasswordChangeOutcome::PersistFailed));
    assert_eq!(failed.status_code(), 500);
    // The live credential still matches the last persisted one.
    assert_eq!(state.credentials.password_hash, old_hash);
    assert!(state.credentials.token.is_some());
}

#[test]
fn factory_reset_returns_to_defaults() {
    let (mut state, mut store) = fresh();
    match provision(&mut state, &mut store, Some("op"), "poolwater1") {
        ProvisionOutcome::Provisioned { .. } => {}
        _ => panic!("provisioning should succeed"),
    }

    let outcome = factory_reset(&mut state, &mut store);
    assert!(matches!(outcome, FactoryResetOutcome::Reset));
    assert_eq!(outcome.status_code(), 200);
    assert!(!state.provisioned);
    assert!(state.credentials.token.is_none());
    assert_eq!(state.credentials.username, "admin");
    assert!(store.username.is_none());
    assert_eq!(store.provisioned, Some(0));

    let locked = login(&mut state, "op", "poolwater1");
    assert!(matches!(locked, LoginOutcome::NotProvisioned));
}

#[test]
fn relay_accepts_only_on_and_off() {
    let (mut state, _store) = fresh();

    let ok = set_relay_state(&mut state, "on".to_owned());
    assert!(matches!(ok, RelayOutcome::Updated));
    assert_eq!(state.relay.state, "on");
    assert!(state.relay.last_change.is_some());

    let ok = set_relay_state(&mut state, "off".to_owned());
    assert!(matches!(ok, RelayOutcome::Updated));
    assert_eq!(state.relay.state, "off");

    let bad = set_relay_state(&mut state, "sideways".to_owned());
    assert!(matches!(bad, RelayOutcome::BadValue));
    assert_eq!(state.relay.state, "off");
}

#[test]
fn wifi_config_requires_a_nonempty_ssid() {
    let (mut state, _store) = fresh();

    let empty = save_wifi_config(&mut state, "   ".to_owned());
    assert!(matches!(empty, WifiSaveOutcome::EmptySsid));
    assert_eq!(state.wifi.mode, "AP");

    let saved = save_wifi_config(&mut state, "Backyard".to_owned());
    assert!(matches!(saved, WifiSaveOutcome::Saved));
    assert_eq!(state.wifi.mode, "STA");
    assert_eq!(state.wifi.ssid, "Backyard");
    assert!(!state.wifi.connected);
    assert!(state.wifi.rssi.is_none());
    assert!(state.wifi.ip.is_none());
}

#[test]
fn factory_reset_fails_closed_on_a_broken_store() {
    let (mut state, mut store) = fresh();
    match provision(&mut state, &mut store, Some("op"), "poolwater1") {
        ProvisionOutcome::Provisioned { .. } => {}
        _ => panic!("provisioning should succeed"),
    }

    store.healthy = false;
    let outcome = factory_reset(&mut state, &mut store);
    assert!(matches!(outcome, FactoryResetOutcome::PersistFailed));
    assert_eq!(outcome.status_code(), 500);
    // Nothing changed: the credential is still provisioned and stored.
    assert!(state.provisioned);
    assert_eq!(store.username.as_deref(), Some("op"));
}

#[test]
fn defaults_are_replaced_wholesale() {
    let (mut state, _store) = fresh();
    assert_eq!(state.defaults.default_state, "off");
    assert_eq!(state.defaults.hysteresis, 2);
    assert_eq!(state.defaults.min_on_temp, 70);

    set_defaults(&mut state, "on".to_owned(), 5, 65);
    assert_eq!(state.defaults.default_state, "on");
    assert_eq!(state.defaults.hysteresis, 5);
    assert_eq!(state.defaults.min_on_temp, 65);
}
