//! Orchestration of provisioning, login, logout, password change and factory
//! reset, plus the small state-mutating endpoints.
//!
//! Each handler takes the application state (and, where it persists, the
//! durable store) by reference, decides, mutates, and reports a typed
//! outcome; the transport layer maps outcomes to status codes and bodies.
//! A persistence failure always leaves the in-memory state exactly as it
//! was, so memory never claims a change that was not durably saved.

use vstd::prelude::*;

use crate::auth::{authorize_at, authorize_decision, authorize_next, header_view,
    AuthorizationFailure};
use crate::credentials::Credentials;
use crate::crypto::password_hash_of;
use crate::persist::{clear_persistent_credentials, holds_record, persist_credentials_state};
use crate::state::AppState;
use crate::store::NvsStore;
use crate::text::{str_eq, trim_ows, trim_ows_str};

verus! {

impl AppState {
    /// Whether the controller status outside the credential slice — Wi-Fi,
    /// relay, defaults, firmware — is the same in both states.
    pub open spec fn same_controller_status(self, other: AppState) -> bool {
        &&& self.wifi == other.wifi
        &&& self.relay == other.relay
        &&& self.defaults == other.defaults
        &&& self.firmware == other.firmware
    }
}

/// The username a provisioning request resolves to: the trimmed requested
/// name, or `admin` when none (or only whitespace) was given.
pub open spec fn resolved_username(username: Option<Seq<char>>) -> Seq<char> {
    match username {
        Some(u) => if trim_ows(u).len() == 0 {
            "admin"@
        } else {
            trim_ows(u)
        },
        None => "admin"@,
    }
}

/// The view of an optional request field.
pub open spec fn opt_str_view(s: Option<&str>) -> Option<Seq<char>> {
    match s {
        Some(v) => Some(v@),
        None => None,
    }
}

/// The outcome of a provisioning attempt.
pub enum ProvisionOutcome {
    /// The device already has a credential; provisioning is one-way.
    AlreadyProvisioned,
    /// The password is shorter than eight characters.
    WeakPassword,
    /// The credential could not be durably saved; nothing changed.
    PersistFailed,
    /// The credential was set and saved, and a session was opened.
    Provisioned {
        /// The fresh session token, for the client.
        token: String,
        /// The username the credential was created under.
        username: String,
    },
}

impl ProvisionOutcome {
    /// The HTTP status this outcome maps to.
    pub fn status_code(&self) -> (r: u16)
        ensures
            *self is AlreadyProvisioned ==> r == 409,
            *self is WeakPassword ==> r == 400,
            *self is PersistFailed ==> r == 500,
            *self is Provisioned ==> r == 200,
    {
        match self {
            ProvisionOutcome::AlreadyProvisioned => 409,
            ProvisionOutcome::WeakPassword => 400,
            ProvisionOutcome::PersistFailed => 500,
            ProvisionOutcome::Provisioned { .. } => 200,
        }
    }
}

/// Sets the first administrator credential. Refused once provisioned,
/// whatever the payload; a password of fewer than eight characters (after
/// trimming) is rejected; the new credential is persisted before it takes
/// effect, and a persistence failure changes nothing, leaving provisioning
/// retryable. On success a session is opened at once.
pub fn provision(
    state: &mut AppState,
    store: &mut NvsStore,
    username: Option<&str>,
    password: &str,
) -> (r: ProvisionOutcome)
    ensures
        old(state).provisioned ==> r is AlreadyProvisioned && *final(state) == *old(state)
            && *final(store) == *old(store),
        !old(state).provisioned && trim_ows(password@).len() < 8 ==> r is WeakPassword
            && *final(state) == *old(state) && *final(store) == *old(store),
        !old(state).provisioned && trim_ows(password@).len() >= 8 ==> (r is Provisioned
            <==> old(store).healthy),
        !old(state).provisioned && trim_ows(password@).len() >= 8 && !old(store).healthy ==> (r
            is PersistFailed && *final(state) == *old(state) && *final(store) == *old(store)),
        r matches ProvisionOutcome::Provisioned { token, username: uname } ==> {
            &&& final(state).provisioned
            &&& final(state).credentials.wf()
            &&& final(state).credentials.username@ == resolved_username(opt_str_view(username))
            &&& uname@ == final(state).credentials.username@
            &&& final(state).credentials.password_hash@ == password_hash_of(
                password@,
                final(state).credentials.salt@,
            )
            &&& final(state).credentials.token matches Some(t) && t.value == token
            &&& token@.len() == 64
            &&& forall|i: int|
                0 <= i < token@.len() ==> crate::hex::is_hex_digit(#[trigger] token@[i])
            &&& holds_record(*final(store), final(state).credentials, true)
            &&& final(state).same_controller_status(*old(state))
        },
{
    if state.provisioned {
        return ProvisionOutcome::AlreadyProvisioned;
    }
    let username_resolved: String = match username {
        Some(requested) => {
            let trimmed = trim_ows_str(requested);
            if trimmed.unicode_len() == 0 {
                "admin".to_owned()
            } else {
                trimmed.to_owned()
            }
        },
        None => "admin".to_owned(),
    };
    if trim_ows_str(password).unicode_len() < 8 {
        return ProvisionOutcome::WeakPassword;
    }
    let credentials = Credentials::with_password(username_resolved.as_str(), password);
    match persist_credentials_state(&credentials, true, store) {
        Err(_) => ProvisionOutcome::PersistFailed,
        Ok(()) => {
            state.credentials = credentials;
            state.provisioned = true;
            let token = state.credentials.issue_token();
            let username_out = state.credentials.username.clone();
            ProvisionOutcome::Provisioned { token, username: username_out }
        },
    }
}

/// The outcome of a login attempt.
pub enum LoginOutcome {
    /// The device is not provisioned; login is unreachable until it is.
    NotProvisioned,
    /// Unknown username or wrong password — deliberately the same answer.
    InvalidCredentials,
    /// Credentials verified; a fresh session replaced any prior one.
    LoggedIn {
        /// The fresh session token, for the client.
        token: String,
    },
}

impl LoginOutcome {
    /// The HTTP status this outcome maps to.
    pub fn status_code(&self) -> (r: u16)
        ensures
            *self is NotProvisioned ==> r == 423,
            *self is InvalidCredentials ==> r == 401,
            *self is LoggedIn ==> r == 200,
    {
        match self {
            LoginOutcome::NotProvisioned => 423,
            LoginOutcome::InvalidCredentials => 401,
            LoginOutcome::LoggedIn { .. } => 200,
        }
    }
}

/// Verifies a username and password and opens a session. The username must
/// match exactly; the password is verified through the stored hash; either
/// mismatch gets the identical answer, so nothing reveals whether a username
/// exists. Success issues a new token, implicitly invalidating any prior
/// session.
pub fn login(state: &mut AppState, username: &str, password: &str) -> (r: LoginOutcome)
    ensures
        !old(state).provisioned ==> r is NotProvisioned && *final(state) == *old(state),
        old(state).provisioned && username@ != old(state).credentials.username@ ==> r
            is InvalidCredentials && *final(state) == *old(state),
        old(state).provisioned && username@ == old(state).credentials.username@
            && !old(state).credentials.password_matches(password@) ==> r is InvalidCredentials
            && *final(state) == *old(state),
        old(state).provisioned && username@ == old(state).credentials.username@
            && old(state).credentials.password_matches(password@) ==> r is LoggedIn,
        r matches LoginOutcome::LoggedIn { token } ==> {
            &&& final(state).credentials.token matches Some(t) && t.value == token
            &&& token@.len() == 64
            &&& forall|i: int|
                0 <= i < token@.len() ==> crate::hex::is_hex_digit(#[trigger] token@[i])
            &&& final(state).credentials.username == old(state).credentials.username
            &&& final(state).credentials.password_hash == old(state).credentials.password_hash
            &&& final(state).credentials.salt == old(state).credentials.salt
            &&& final(state).provisioned == old(state).provisioned
            &&& final(state).same_controller_status(*old(state))
        },
{
    if !state.provisioned {
        return LoginOutcome::NotProvisioned;
    }
    if !str_eq(username, state.credentials.username.as_str()) {
        return LoginOutcome::InvalidCredentials;
    }
    if !state.credentials.verify_password(password) {
        return LoginOutcome::InvalidCredentials;
    }
    let token = state.credentials.issue_token();
    LoginOutcome::LoggedIn { token }
}

/// Ends the session, behind authorization: an authorized request clears the
/// session (idempotent in effect — a second logout simply fails
/// authorization); a refused one reports why, an expired session having
/// already been consumed during validation.
pub fn logout(header: Option<&str>, state: &mut AppState, now: u64) -> (r: Result<
    (),
    AuthorizationFailure,
>)
    ensures
        r == authorize_decision(header_view(header), old(state).credentials, now),
        r is Ok ==> final(state).credentials.token is None,
        r is Err ==> final(state).credentials == authorize_next(
            header_view(header),
            old(state).credentials,
            now,
        ),
        final(state).credentials.username == old(state).credentials.username,
        final(state).credentials.password_hash == old(state).credentials.password_hash,
        final(state).credentials.salt == old(state).credentials.salt,
        final(state).provisioned == old(state).provisioned,
        final(state).same_controller_status(*old(state)),
{
    match authorize_at(header, &mut state.credentials, now) {
        Err(failure) => Err(failure),
        Ok(()) => {
            state.credentials.invalidate_token();
            Ok(())
        },
    }
}

/// The outcome of a password change.
#[derive(Clone, Copy, Debug, PartialEq, Eq, Structural)]
pub enum PasswordChangeOutcome {
    /// The new password is empty after trimming.
    EmptyNewPassword,
    /// The current password did not verify; a live session alone does not
    /// suffice to change the password.
    WrongPassword,
    /// The new credential could not be durably saved; nothing changed.
    PersistFailed,
    /// Password changed, session invalidated, credential persisted.
    Changed,
}

impl PasswordChangeOutcome {
    /// The HTTP status this outcome maps to.
    pub fn status_code(&self) -> (r: u16)
        ensures
            *self is EmptyNewPassword ==> r == 400,
            *self is WrongPassword ==> r == 401,
            *self is PersistFailed ==> r == 500,
            *self is Changed ==> r == 200,
    {
        match self {
            PasswordChangeOutcome::EmptyNewPassword => 400,
            PasswordChangeOutcome::WrongPassword => 401,
            PasswordChangeOutcome::PersistFailed => 500,
            PasswordChangeOutcome::Changed => 200,
        }
    }
}

/// Changes the password. The current password must re-verify; salt and hash
/// are regenerated together; the session is invalidated, forcing re-login;
/// the new credential is persisted before it takes effect, and a persistence
/// failure changes nothing — the old password and the live session stay.
pub fn change_password(
    state: &mut AppState,
    store: &mut NvsStore,
    current_password: &str,
    new_password: &str,
) -> (r: PasswordChangeOutcome)
    ensures
        trim_ows(new_password@).len() == 0 ==> r is EmptyNewPassword && *final(state) == *old(state)
            && *final(store) == *old(store),
        trim_ows(new_password@).len() > 0 && !old(state).credentials.password_matches(
            current_password@,
        ) ==> r is WrongPassword && *final(state) == *old(state) && *final(store) == *old(store),
        trim_ows(new_password@).len() > 0 && old(state).credentials.password_matches(
            current_password@,
        ) ==> (r is Changed <==> old(store).healthy),
        trim_ows(new_password@).len() > 0 && old(state).credentials.password_matches(
            current_password@,
        ) && !old(store).healthy ==> (r is PersistFailed && *final(state) == *old(state)
            && *final(store) == *old(store)),
        r is PersistFailed ==> *final(state) == *old(state) && *final(store) == *old(store),
        r is Changed ==> {
            &&& final(state).credentials.wf()
            &&& final(state).credentials.password_hash@ == password_hash_of(
                new_password@,
                final(state).credentials.salt@,
            )
            &&& final(state).credentials.token is None
            &&& final(state).credentials.username == old(state).credentials.username
            &&& final(state).provisioned == old(state).provisioned
            &&& holds_record(*final(store), final(state).credentials, old(state).provisioned)
            &&& final(state).same_controller_status(*old(state))
        },
{
    if trim_ows_str(new_password).unicode_len() == 0 {
        return PasswordChangeOutcome::EmptyNewPassword;
    }
    if !state.credentials.verify_password(current_password) {
        return PasswordChangeOutcome::WrongPassword;
    }
    let mut candidate = state.credentials.clone();
    candidate.set_password(new_password);
    candidate.invalidate_token();
    match persist_credentials_state(&candidate, state.provisioned, store) {
        Err(_) => PasswordChangeOutcome::PersistFailed,
        Ok(()) => {
            state.credentials = candidate;
            PasswordChangeOutcome::Changed
        },
    }
}

/// The outcome of a factory reset.
#[derive(Clone, Copy, Debug, PartialEq, Eq, Structural)]
pub enum FactoryResetOutcome {
    /// Credentials cleared durably; the whole state is back to defaults.
    Reset,
    /// The durable store could not be cleared; nothing changed.
    PersistFailed,
}

impl FactoryResetOutcome {
    /// The HTTP status this outcome maps to.
    pub fn status_code(&self) -> (r: u16)
        ensures
            *self is Reset ==> r == 200,
            *self is PersistFailed ==> r == 500,
    {
        match self {
            FactoryResetOutcome::Reset => 200,
            FactoryResetOutcome::PersistFailed => 500,
        }
    }
}

/// Clears the persisted credential record and replaces the whole in-memory
/// state with defaults: not provisioned, the default credential, no session.
/// If the store cannot be cleared, nothing changes.
pub fn factory_reset(state: &mut AppState, store: &mut NvsStore) -> (r: FactoryResetOutcome)
    ensures
        r is Reset <==> old(store).healthy,
        r is PersistFailed ==> *final(state) == *old(state) && *final(store) == *old(store),
        r is Reset ==> {
            &&& final(store).username is None
            &&& final(store).password_hash is None
            &&& final(store).salt_hex is None
            &&& final(store).provisioned == Some(0u8)
            &&& !final(state).provisioned
            &&& final(state).credentials.username@ == "admin"@
            &&& final(state).credentials.password_matches("admin"@)
            &&& final(state).credentials.token is None
            &&& final(state).firmware is None
            &&& final(state).wifi.mode@ == "AP"@ && final(state).wifi.ssid@ == "Solar-Heater"@
                && !final(state).wifi.connected && final(state).wifi.rssi is None
            &&& final(state).relay.state@ == "off"@ && final(state).relay.last_change is None
            &&& final(state).defaults.default_state@ == "off"@ && final(state).defaults.hysteresis
                == 2 && final(state).defaults.min_on_temp == 70
        },
{
    match clear_persistent_credentials(store) {
        Err(_) => FactoryResetOutcome::PersistFailed,
        Ok(()) => {
            *state = AppState::from_store(store);
            FactoryResetOutcome::Reset
        },
    }
}

/// What the provisioning-status endpoint reports: whether the device is
/// provisioned, and the username only once it is.
pub struct ProvisioningStatus {
    /// Whether a credential has been set.
    pub provisioned: bool,
    /// The credential's username, present only when provisioned.
    pub username: Option<String>,
}

/// Reports whether the device is provisioned; the username is disclosed
/// only once it is.
pub fn provisioning_status(state: &AppState) -> (r: ProvisioningStatus)
    ensures
        r.provisioned == state.provisioned,
        state.provisioned ==> (r.username matches Some(u) && u == state.credentials.username),
        !state.provisioned ==> r.username is None,
{
    ProvisioningStatus {
        provisioned: state.provisioned,
        username: if state.provisioned {
            Some(state.credentials.username.clone())
        } else {
            None
        },
    }
}

/// The outcome of a relay command.
#[derive(Clone, Copy, Debug, PartialEq, Eq, Structural)]
pub enum RelayOutcome {
    /// The relay state was set and the change time recorded.
    Updated,
    /// The requested state was neither `on` nor `off`; nothing changed.
    BadValue,
}

/// Sets the relay to `on` or `off` and records when it changed; any other
/// value is rejected and nothing changes.
pub fn set_relay_state(state: &mut AppState, value: String) -> (r: RelayOutcome)
    ensures
        r is Updated <==> (value@ == "on"@ || value@ == "off"@),
        r is Updated ==> final(state).relay.state == value && final(state).relay.last_change
            is Some && final(state).credentials == old(state).credentials
            && final(state).wifi == old(state).wifi && final(state).defaults == old(state).defaults
            && final(state).firmware == old(state).firmware
            && final(state).provisioned == old(state).provisioned,
        r is BadValue ==> *final(state) == *old(state),
{
    if str_eq(value.as_str(), "on") || str_eq(value.as_str(), "off") {
        state.relay.state = value;
        let now = crate::clock::now_unix_seconds();
        state.relay.last_change = Some(crate::clock::timestamp_text(now));
        RelayOutcome::Updated
    } else {
        RelayOutcome::BadValue
    }
}

/// Replaces the operator-adjustable control defaults.
pub fn set_defaults(state: &mut AppState, default_state: String, hysteresis: u16, min_on_temp: u16)
    ensures
        final(state).defaults.default_state == default_state,
        final(state).defaults.hysteresis == hysteresis,
        final(state).defaults.min_on_temp == min_on_temp,
        final(state).credentials == old(state).credentials,
        final(state).provisioned == old(state).provisioned,
        final(state).wifi == old(state).wifi,
        final(state).relay == old(state).relay,
        final(state).firmware == old(state).firmware,
{
    state.defaults.default_state = default_state;
    state.defaults.hysteresis = hysteresis;
    state.defaults.min_on_temp = min_on_temp;
}

/// The outcome of saving a Wi-Fi configuration.
#[derive(Clone, Copy, Debug, PartialEq, Eq, Structural)]
pub enum WifiSaveOutcome {
    /// The station configuration was recorded; association is pending.
    Saved,
    /// The SSID was empty; nothing changed.
    EmptySsid,
}

/// Records a station configuration to join: the mode flips to station with
/// the association still pending. An empty SSID is rejected.
pub fn save_wifi_config(state: &mut AppState, ssid: String) -> (r: WifiSaveOutcome)
    ensures
        r is Saved <==> trim_ows(ssid@).len() > 0,
        r is Saved ==> final(state).wifi.mode@ == "STA"@ && !final(state).wifi.connected
            && final(state).wifi.ssid == ssid && final(state).wifi.rssi is None
            && final(state).wifi.ip is None && final(state).credentials == old(state).credentials
            && final(state).provisioned == old(state).provisioned
            && final(state).relay == old(state).relay
            && final(state).defaults == old(state).defaults
            && final(state).firmware == old(state).firmware,
        r is EmptySsid ==> *final(state) == *old(state),
{
    if trim_ows_str(ssid.as_str()).unicode_len() == 0 {
        return WifiSaveOutcome::EmptySsid;
    }
    state.wifi.mode = "STA".to_owned();
    state.wifi.connected = false;
    state.wifi.ssid = ssid;
    state.wifi.rssi = None;
    state.wifi.ip = None;
    WifiSaveOutcome::Saved
}

} // verus!
