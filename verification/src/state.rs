//! The process-wide application state: the credential and provisioned flag
//! that the security subsystem owns, plus the controller status the
//! handlers report.
//!
//! There is exactly one live `AppState`, constructed at boot from the
//! durable store and passed by reference into every handler; the caller
//! serializes access to it.

use vstd::prelude::*;

use crate::credentials::Credentials;
use crate::persist::{load_persistent_state, loadable, PersistentState};
use crate::store::NvsStore;

verus! {

/// Wi-Fi status as reported to the UI.
pub struct WifiStatus {
    /// Operating mode: access point or station.
    pub mode: String,
    /// The network's SSID.
    pub ssid: String,
    /// Whether the station is associated.
    pub connected: bool,
    /// Received signal strength, when known.
    pub rssi: Option<i32>,
    /// The assigned address, when known.
    pub ip: Option<String>,
}

impl Default for WifiStatus {
    /// Boots in access-point mode under the default SSID.
    fn default() -> (r: Self)
        ensures
            r.mode@ == "AP"@,
            r.ssid@ == "Solar-Heater"@,
            !r.connected,
            r.rssi is None,
            r.ip matches Some(ip) && ip@ == "192.168.4.1"@,
    {
        WifiStatus {
            mode: "AP".to_owned(),
            ssid: "Solar-Heater".to_owned(),
            connected: false,
            rssi: None,
            ip: Some("192.168.4.1".to_owned()),
        }
    }
}

/// Relay status as reported to the UI.
pub struct RelayStatus {
    /// `"on"` or `"off"`.
    pub state: String,
    /// When the relay last changed, as rendered text.
    pub last_change: Option<String>,
}

impl Default for RelayStatus {
    /// Boots with the relay off and no change recorded.
    fn default() -> (r: Self)
        ensures
            r.state@ == "off"@,
            r.last_change is None,
    {
        RelayStatus { state: "off".to_owned(), last_change: None }
    }
}

/// Control defaults the operator can adjust.
pub struct Defaults {
    /// The relay state assumed at boot: `"on"` or `"off"`.
    pub default_state: String,
    /// Hysteresis around the switching threshold, in degrees.
    pub hysteresis: u16,
    /// Minimum temperature at which the relay may switch on, in degrees.
    pub min_on_temp: u16,
}

impl Default for Defaults {
    /// The factory control defaults.
    fn default() -> (r: Self)
        ensures
            r.default_state@ == "off"@,
            r.hysteresis == 2,
            r.min_on_temp == 70,
    {
        Defaults { default_state: "off".to_owned(), hysteresis: 2, min_on_temp: 70 }
    }
}

/// Metadata of the most recently uploaded firmware image.
#[derive(Debug)]
pub struct FirmwareInfo {
    /// Hex-encoded SHA-256 digest of the image.
    pub sha256: String,
    /// Size of the image in bytes.
    pub size: u64,
    /// When the image was uploaded, as rendered text.
    pub uploaded_at: Option<String>,
    /// Whether the image has been staged for installation.
    pub staged: bool,
}

impl Clone for FirmwareInfo {
    fn clone(&self) -> (r: Self)
        ensures
            r == *self,
    {
        FirmwareInfo {
            sha256: self.sha256.clone(),
            size: self.size,
            uploaded_at: match &self.uploaded_at {
                Some(s) => Some(s.clone()),
                None => None,
            },
            staged: self.staged,
        }
    }
}

/// All mutable state of the controller that handlers read and write. The
/// security-relevant slice is `credentials` and `provisioned`; the rest is
/// status the UI displays.
pub struct AppState {
    /// Wi-Fi status.
    pub wifi: WifiStatus,
    /// Relay status.
    pub relay: RelayStatus,
    /// Operator-adjustable control defaults.
    pub defaults: Defaults,
    /// The most recently uploaded firmware image, if any.
    pub firmware: Option<FirmwareInfo>,
    /// The administrator credential and its at most one session.
    pub credentials: Credentials,
    /// Whether the device has been provisioned. One-way except by factory
    /// reset: while false, only the provisioning endpoint is open.
    pub provisioned: bool,
}

impl AppState {
    /// State built from what the durable store holds: the persisted
    /// credential when a complete record exists, else the default
    /// (insecure, documented) credential and not provisioned.
    pub fn from_store(store: &NvsStore) -> (r: AppState)
        ensures
            r.provisioned <==> loadable(*store),
            loadable(*store) ==> r.credentials.wf() && r.credentials.token is None
                && r.credentials.username == store.username->0 && r.credentials.password_hash
                == store.password_hash->0 && r.credentials.salt@ == crate::hex::bytes_of_hex(
                store.salt_hex->0@,
            ),
            !loadable(*store) ==> r.credentials.wf() && r.credentials.token is None
                && r.credentials.username@ == "admin"@ && r.credentials.password_matches("admin"@),
            r.firmware is None,
            r.wifi.mode@ == "AP"@ && r.wifi.ssid@ == "Solar-Heater"@ && !r.wifi.connected
                && r.wifi.rssi is None && (r.wifi.ip matches Some(ip) && ip@ == "192.168.4.1"@),
            r.relay.state@ == "off"@ && r.relay.last_change is None,
            r.defaults.default_state@ == "off"@ && r.defaults.hysteresis == 2
                && r.defaults.min_on_temp == 70,
    {
        let (credentials, provisioned): (Credentials, bool) = match load_persistent_state(store) {
            Some(PersistentState { credentials, provisioned }) => (credentials, provisioned),
            None => (Credentials::with_password("admin", "admin"), false),
        };
        AppState {
            wifi: WifiStatus::default(),
            relay: RelayStatus::default(),
            defaults: Defaults::default(),
            firmware: None,
            credentials,
            provisioned,
        }
    }
}

} // verus!
