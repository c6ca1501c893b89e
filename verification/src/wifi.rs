//! Wi-Fi provisioning state: the centralized owner of the station and
//! access-point status that hardware integrations update and HTTP handlers
//! snapshot.
//!
//! Hardware association runs outside this library; the controller here keeps
//! the state machine — attempting, connected, captive access point, error —
//! and the cached scan results.

use vstd::prelude::*;

verus! {

/// High-level provisioning states reported to the UI.
#[derive(Clone, Copy, Debug, PartialEq, Eq, Structural)]
pub enum ProvisioningState {
    /// Nothing in progress.
    Idle,
    /// A station join attempt is under way.
    Connecting,
    /// The captive access point is up.
    ApMode,
    /// The last join attempt failed.
    Error,
}

impl Default for ProvisioningState {
    /// An unconfigured device starts in access-point mode.
    fn default() -> (r: Self)
        ensures
            r == ProvisioningState::ApMode,
    {
        ProvisioningState::ApMode
    }
}

/// Snapshot of the station-specific status.
pub struct StationSnapshot {
    /// The SSID being joined or joined, when known.
    pub ssid: Option<String>,
    /// Whether the station is associated.
    pub connected: bool,
    /// Received signal strength, when known.
    pub rssi: Option<i32>,
    /// The assigned address, when known.
    pub ip: Option<String>,
}

impl Default for StationSnapshot {
    /// No station activity at all.
    fn default() -> (r: Self)
        ensures
            r.ssid is None,
            !r.connected,
            r.rssi is None,
            r.ip is None,
    {
        StationSnapshot { ssid: None, connected: false, rssi: None, ip: None }
    }
}

/// Snapshot of the access-point status.
pub struct AccessPointSnapshot {
    /// The SSID the access point announces.
    pub ssid: String,
    /// The channel it uses.
    pub channel: u8,
    /// How many clients are associated.
    pub client_count: u16,
}

impl Default for AccessPointSnapshot {
    /// The default access point, before any customization.
    fn default() -> (r: Self)
        ensures
            r.ssid@ == "Solar-Heater"@,
            r.channel == 1,
            r.client_count == 0,
    {
        AccessPointSnapshot { ssid: "Solar-Heater".to_owned(), channel: 1, client_count: 0 }
    }
}

/// Aggregated Wi-Fi state exposed to the rest of the firmware.
pub struct WifiSnapshot {
    /// The current operating mode.
    pub mode: WifiMode,
    /// Station status.
    pub station: StationSnapshot,
    /// Access-point status, present only while the access point is up.
    pub access_point: Option<AccessPointSnapshot>,
    /// The provisioning state reported to the UI.
    pub provisioning_state: ProvisioningState,
}

impl Default for WifiSnapshot {
    /// An unconfigured device: access-point mode, default access point, no
    /// station activity.
    fn default() -> (r: Self)
        ensures
            r.mode == WifiMode::AccessPoint,
            r.station.ssid is None && !r.station.connected && r.station.rssi is None
                && r.station.ip is None,
            r.access_point matches Some(ap) && ap.ssid@ == "Solar-Heater"@ && ap.channel == 1
                && ap.client_count == 0,
            r.provisioning_state == ProvisioningState::ApMode,
    {
        WifiSnapshot {
            mode: WifiMode::AccessPoint,
            station: StationSnapshot::default(),
            access_point: Some(AccessPointSnapshot::default()),
            provisioning_state: ProvisioningState::ApMode,
        }
    }
}

/// The Wi-Fi operating mode.
#[derive(Clone, Copy, Debug, PartialEq, Eq, Structural)]
pub enum WifiMode {
    /// Joined (or joining) an existing network.
    Station,
    /// Announcing the captive access point.
    AccessPoint,
}

impl Default for WifiMode {
    /// An unconfigured device announces the access point.
    fn default() -> (r: Self)
        ensures
            r == WifiMode::AccessPoint,
    {
        WifiMode::AccessPoint
    }
}

/// A scanned network.
pub struct WifiNetwork {
    /// The network's SSID.
    pub ssid: String,
    /// Received signal strength.
    pub rssi: i32,
    /// Whether the network requires authentication.
    pub secure: bool,
}

impl Clone for WifiNetwork {
    fn clone(&self) -> (r: Self)
        ensures
            r == *self,
    {
        WifiNetwork { ssid: self.ssid.clone(), rssi: self.rssi, secure: self.secure }
    }
}

/// What a scan reports: the networks seen.
pub struct WifiScanResponse {
    /// The networks seen, most recent scan first.
    pub networks: Vec<WifiNetwork>,
}

/// The controller's internal state: the live snapshot and the cached scan
/// results.
pub struct WifiRuntime {
    /// The current aggregated status.
    pub snapshot: WifiSnapshot,
    /// The most recent scan results.
    pub scan_cache: Vec<WifiNetwork>,
}

impl WifiRuntime {
    /// A fresh runtime: the default snapshot, and a scan cache seeded with
    /// two example networks, served until hardware provides real results.
    pub fn new() -> (r: Self)
        ensures
            r.snapshot.mode == WifiMode::AccessPoint,
            r.snapshot.provisioning_state == ProvisioningState::ApMode,
            r.snapshot.station.ssid is None,
            !r.snapshot.station.connected,
            r.snapshot.station.rssi is None,
            r.snapshot.station.ip is None,
            r.snapshot.access_point matches Some(ap) && ap.ssid@ == "Solar-Heater"@ && ap.channel
                == 1 && ap.client_count == 0,
            r.scan_cache@.len() == 2,
            r.scan_cache@[0].ssid@ == "Backyard"@ && r.scan_cache@[0].rssi == -55
                && r.scan_cache@[0].secure,
            r.scan_cache@[1].ssid@ == "Guest"@ && r.scan_cache@[1].rssi == -68
                && !r.scan_cache@[1].secure,
    {
        let mut scan_cache: Vec<WifiNetwork> = Vec::new();
        scan_cache.push(WifiNetwork { ssid: "Backyard".to_owned(), rssi: -55, secure: true });
        scan_cache.push(WifiNetwork { ssid: "Guest".to_owned(), rssi: -68, secure: false });
        WifiRuntime { snapshot: WifiSnapshot::default(), scan_cache }
    }
}

/// Centralized Wi-Fi state owner. Hardware integrations update it; HTTP
/// handlers consume snapshots. The caller serializes access.
pub struct WifiController {
    /// The runtime state.
    pub inner: WifiRuntime,
}

impl WifiController {
    /// A fresh controller in access-point mode: no station activity, the
    /// default access point up, and the seeded scan cache.
    pub fn new() -> (r: Self)
        ensures
            r.inner.snapshot.mode == WifiMode::AccessPoint,
            r.inner.snapshot.provisioning_state == ProvisioningState::ApMode,
            r.inner.snapshot.station.ssid is None,
            !r.inner.snapshot.station.connected,
            r.inner.snapshot.station.rssi is None,
            r.inner.snapshot.station.ip is None,
            r.inner.snapshot.access_point matches Some(ap) && ap.ssid@ == "Solar-Heater"@
                && ap.channel == 1 && ap.client_count == 0,
            r.inner.scan_cache@.len() == 2,
            r.inner.scan_cache@[0].ssid@ == "Backyard"@ && r.inner.scan_cache@[0].rssi == -55
                && r.inner.scan_cache@[0].secure,
            r.inner.scan_cache@[1].ssid@ == "Guest"@ && r.inner.scan_cache@[1].rssi == -68
                && !r.inner.scan_cache@[1].secure,
    {
        WifiController { inner: WifiRuntime::new() }
    }

    /// Returns a copy of the current status.
    pub fn snapshot(&self) -> (r: WifiSnapshot)
        ensures
            r == self.inner.snapshot,
    {
        WifiSnapshot {
            mode: self.inner.snapshot.mode,
            station: StationSnapshot {
                ssid: match &self.inner.snapshot.station.ssid {
                    Some(s) => Some(s.clone()),
                    None => None,
                },
                connected: self.inner.snapshot.station.connected,
                rssi: self.inner.snapshot.station.rssi,
                ip: match &self.inner.snapshot.station.ip {
                    Some(s) => Some(s.clone()),
                    None => None,
                },
            },
            access_point: match &self.inner.snapshot.access_point {
                Some(ap) => Some(
                    AccessPointSnapshot {
                        ssid: ap.ssid.clone(),
                        channel: ap.channel,
                        client_count: ap.client_count,
                    },
                ),
                None => None,
            },
            provisioning_state: self.inner.snapshot.provisioning_state,
        }
    }

    /// Marks the beginning of a station join attempt for the provided SSID:
    /// station mode, connecting, nothing known yet, access point down.
    pub fn begin_sta_attempt(&mut self, ssid: &str)
        ensures
            final(self).inner.snapshot.mode == WifiMode::Station,
            final(self).inner.snapshot.provisioning_state == ProvisioningState::Connecting,
            !final(self).inner.snapshot.station.connected,
            final(self).inner.snapshot.station.ssid matches Some(s) && s@ == ssid@,
            final(self).inner.snapshot.station.rssi is None,
            final(self).inner.snapshot.station.ip is None,
            final(self).inner.snapshot.access_point is None,
            final(self).inner.scan_cache == old(self).inner.scan_cache,
    {
        self.inner.snapshot.mode = WifiMode::Station;
        self.inner.snapshot.provisioning_state = ProvisioningState::Connecting;
        self.inner.snapshot.station.connected = false;
        self.inner.snapshot.station.ssid = Some(ssid.to_owned());
        self.inner.snapshot.station.rssi = None;
        self.inner.snapshot.station.ip = None;
        self.inner.snapshot.access_point = None;
    }

    /// Records a successful station join: station mode, idle, connected,
    /// with whatever signal strength and address are known.
    pub fn mark_sta_connected(&mut self, ssid: &str, rssi: Option<i32>, ip: Option<String>)
        ensures
            final(self).inner.snapshot.mode == WifiMode::Station,
            final(self).inner.snapshot.provisioning_state == ProvisioningState::Idle,
            final(self).inner.snapshot.station.connected,
            final(self).inner.snapshot.station.ssid matches Some(s) && s@ == ssid@,
            final(self).inner.snapshot.station.rssi == rssi,
            final(self).inner.snapshot.station.ip == ip,
            final(self).inner.snapshot.access_point == old(self).inner.snapshot.access_point,
            final(self).inner.scan_cache == old(self).inner.scan_cache,
    {
        self.inner.snapshot.mode = WifiMode::Station;
        self.inner.snapshot.provisioning_state = ProvisioningState::Idle;
        self.inner.snapshot.station.ssid = Some(ssid.to_owned());
        self.inner.snapshot.station.connected = true;
        self.inner.snapshot.station.rssi = rssi;
        self.inner.snapshot.station.ip = ip;
    }

    /// Falls back to access-point mode, typically after repeated station
    /// failures: the station status is reset and the access point comes up
    /// again, renamed when a custom SSID is given and otherwise keeping its
    /// previous (or default) configuration.
    pub fn enable_captive_ap(&mut self, ssid: Option<String>)
        ensures
            final(self).inner.snapshot.mode == WifiMode::AccessPoint,
            final(self).inner.snapshot.provisioning_state == ProvisioningState::ApMode,
            final(self).inner.snapshot.station.ssid is None,
            !final(self).inner.snapshot.station.connected,
            final(self).inner.snapshot.access_point matches Some(ap) && (match ssid {
                Some(custom) => ap.ssid == custom,
                None => match old(self).inner.snapshot.access_point {
                    Some(prev) => ap.ssid == prev.ssid,
                    None => ap.ssid@ == "Solar-Heater"@,
                },
            }) && (match old(self).inner.snapshot.access_point {
                Some(prev) => ap.channel == prev.channel && ap.client_count == prev.client_count,
                None => ap.channel == 1 && ap.client_count == 0,
            }),
            final(self).inner.scan_cache == old(self).inner.scan_cache,
    {
        self.inner.snapshot.mode = WifiMode::AccessPoint;
        self.inner.snapshot.provisioning_state = ProvisioningState::ApMode;
        self.inner.snapshot.station = StationSnapshot::default();
        let mut ap = match self.inner.snapshot.access_point.take() {
            Some(previous) => previous,
            None => AccessPointSnapshot::default(),
        };
        if let Some(custom_ssid) = ssid {
            ap.ssid = custom_ssid;
        }
        self.inner.snapshot.access_point = Some(ap);
    }

    /// Marks the provisioning state as failed; the station is no longer
    /// considered associated.
    pub fn mark_error(&mut self)
        ensures
            final(self).inner.snapshot.provisioning_state == ProvisioningState::Error,
            !final(self).inner.snapshot.station.connected,
            final(self).inner.snapshot.mode == old(self).inner.snapshot.mode,
            final(self).inner.snapshot.station.ssid == old(self).inner.snapshot.station.ssid,
            final(self).inner.snapshot.station.rssi == old(self).inner.snapshot.station.rssi,
            final(self).inner.snapshot.station.ip == old(self).inner.snapshot.station.ip,
            final(self).inner.snapshot.access_point == old(self).inner.snapshot.access_point,
            final(self).inner.scan_cache == old(self).inner.scan_cache,
    {
        self.inner.snapshot.provisioning_state = ProvisioningState::Error;
        self.inner.snapshot.station.connected = false;
    }

    /// Reports the most recent scan results. Hardware scanning runs outside
    /// this library; the controller serves the cached results it was last
    /// given.
    pub fn scan_networks(&self) -> (r: WifiScanResponse)
        ensures
            r.networks@ == self.inner.scan_cache@,
    {
        let mut networks: Vec<WifiNetwork> = Vec::new();
        let mut i: usize = 0;
        while i < self.inner.scan_cache.len()
            invariant
                i <= self.inner.scan_cache@.len(),
                networks@ == self.inner.scan_cache@.take(i as int),
            decreases self.inner.scan_cache@.len() - i,
        {
            networks.push(self.inner.scan_cache[i].clone());
            proof {
                assert(self.inner.scan_cache@.take(i + 1 as int).drop_last()
                    =~= self.inner.scan_cache@.take(i as int));
                assert(networks@ =~= self.inner.scan_cache@.take(i + 1 as int));
            }
            i = i + 1;
        }
        proof {
            assert(self.inner.scan_cache@.take(self.inner.scan_cache@.len() as int)
                =~= self.inner.scan_cache@);
        }
        WifiScanResponse { networks }
    }
}

/// The error reported when hardware Wi-Fi work is unavailable.
#[derive(Clone, Copy, Debug, PartialEq, Eq, Structural)]
pub struct WifiUnavailable;

/// Prepares the Wi-Fi driver. Hardware initialization runs outside this
/// library; with no hardware attached there is nothing to do.
pub fn initialize() -> (r: Result<(), WifiUnavailable>)
    ensures
        r is Ok,
{
    Ok(())
}

/// Schedules a station join attempt. Hardware association runs outside this
/// library; with no hardware attached the request is accepted and dropped.
pub fn schedule_sta_connect(ssid: String, password: Option<String>) -> (r: Result<
    (),
    WifiUnavailable,
>)
    ensures
        r is Ok,
{
    let _ = ssid;
    let _ = password;
    Ok(())
}

} // verus!
