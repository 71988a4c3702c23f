//! The state of one interface.

use vstd::prelude::*;
use vstd::string::*;

use crate::auth::AuthMethod;
use crate::client::policy;
use crate::client::policy::WowlanTrigger;
use crate::client::wiphy::WiphySchedScanCaps;
use crate::config::{Network, NetworkConfig, WifiConfig};
use crate::crypto::ft::PmkR1;
use crate::crypto::handshake4::FourWayState;
use crate::crypto::owe::OweAuth;
use crate::eap::EapPeer;
use crate::eap_tls::EapTlsMethod;
use crate::error::{ErrorKind, WifiError};
use crate::pmksa::{PmksaCache, PmksaEntry};
use crate::scan::BssInfo;

verus! {

/// Initial scan-retry backoff (seconds) used while hunting for the configured
/// SSID. Doubles after each failed scan, capped at
/// [`RETRY_BACKOFF_MAX_SEC`].
pub const RETRY_BACKOFF_INIT_SEC: u64 = 10;

/// Cap (seconds) for the scan-retry backoff.
pub const RETRY_BACKOFF_MAX_SEC: u64 = 300;

/// Interval (seconds) between hardware scheduled scan (PNO) iterations while
/// hunting for the configured SSID. The firmware scans this often while the
/// host sleeps.
pub const SCHED_SCAN_INTERVAL_SEC: u32 = 10;

/// Watchdog (seconds) for [`WifiState::SchedScanWait`]: with an SSID match
/// set the firmware only reports on a match, so an absent AP produces no
/// results events at all. If none arrives this long, the scan is re-armed via
/// the host fallback (the firmware may have silently stopped). Longer than
/// the firmware's scan interval, so a match (present AP) always wakes us
/// first.
pub const SCHED_SCAN_WATCHDOG_SECS: u64 = 60;

/// Maximum SAE Sync counter (commit retransmissions).
pub const SAE_SYNC_MAX: u8 = 3;

#[derive(Debug, Clone, Copy, PartialEq, Eq, Structural)]
#[non_exhaustive]
pub enum WifiState {
    /// Initial state; the next step triggers a scan.
    Init,
    /// Scan in flight / waiting for results.
    Scanning,
    /// Hardware scheduled scan (PNO) active: the firmware scans periodically
    /// and the host sleeps until the configured SSID shows up.
    SchedScanWait,
    /// SAE + association + 4-way handshake in progress.
    Authenticating,
    /// Ready for communication, but the client must stay running to follow up
    /// group rekeys.
    ConnectedWithoutOffloadRekey,
    /// Ready for communication; rekey is offloaded to kernel firmware/driver
    /// and the client can be terminated.
    ConnectedWithOffloadRekey,
    /// Connection failed; retried after a short delay.
    Failed,
    /// Connection failed during authentication; retried after a long delay.
    FailedAuthentication,
}

impl Default for WifiState {
    fn default() -> (r: Self)
        ensures
            r == WifiState::Init,
    {
        WifiState::Init
    }
}

impl WifiState {
    /// Whether the connection is up.
    pub open spec fn spec_is_connected(self) -> bool {
        self == WifiState::ConnectedWithoutOffloadRekey || self
            == WifiState::ConnectedWithOffloadRekey
    }

    /// Whether the connection is up.
    pub fn is_connected(self) -> (r: bool)
        ensures
            r == self.spec_is_connected(),
    {
        matches!(
            self,
            WifiState::ConnectedWithoutOffloadRekey | WifiState::ConnectedWithOffloadRekey
        )
    }
}

/// What identifies the interface, and its configuration.
#[derive(Debug, Clone)]
pub struct IfaceCore {
    pub if_index: u32,
    pub mac: [u8; 6],
    pub config: WifiConfig,
}

/// Capabilities probed once from the wiphy and shared by every scan, PNO and
/// WoWLAN operation on this interface.
#[derive(Debug, Clone)]
pub struct WiphyCaps {
    /// Whether the driver advertises hardware scheduled scan (PNO) support.
    pub sched_scan_supported: bool,
    /// Maximum number of SSIDs the wiphy accepts in one scheduled-scan
    /// request.
    pub max_sched_scan_ssids: usize,
    /// Maximum number of match sets the wiphy accepts in one scheduled scan;
    /// 0 means no filtering.
    pub max_match_sets: usize,
    /// Maximum number of SSIDs the wiphy accepts in one scan request. Hidden
    /// SSIDs are rotated through this cap with a wildcard entry reserved.
    pub max_scan_ssids: usize,
    /// The WoWLAN triggers the wiphy advertises. Empty when the driver has no
    /// WoWLAN support.
    pub wowlan_supported_triggers: Vec<WowlanTrigger>,
}

/// Host scan and hardware scheduled-scan (PNO) state, with the per-cycle
/// backoff and SSID rotation cursors.
#[derive(Debug, Clone, Copy, PartialEq, Eq)]
pub struct ScanEngine {
    /// Current scan-retry backoff in seconds; doubles after each scan that
    /// fails to find the SSID (capped at `RETRY_BACKOFF_MAX_SEC`) and resets
    /// to `RETRY_BACKOFF_INIT_SEC` once the SSID is found or a connection is
    /// established.
    pub scan_retry_interval: u64,
    /// Whether a scheduled scan is currently running in the firmware.
    pub sched_scan_active: bool,
    /// A stop was requested and the kernel's `SCHED_SCAN_STOPPED` echo has
    /// not been consumed yet. The kernel multicasts that event for every
    /// stop - our own too - so this flag tells our own echo from a genuine
    /// firmware abort.
    pub sched_scan_stop_pending: bool,
    /// Index of the next hidden SSID for the next PNO chunk.
    pub sched_scan_cursor: usize,
    /// Whether the current PNO chunk did not cover every hidden SSID, so it
    /// must be rotated to the next chunk after `sched_scan_timeout_secs`.
    pub sched_scan_more: bool,
    /// A stop in flight was requested to rotate to the next PNO chunk.
    pub sched_scan_rotate: bool,
    /// Current PNO plan interval; doubles as chunks rotate and resets with
    /// the timeout.
    pub sched_scan_interval_sec: u32,
    /// How long (seconds) the current PNO chunk runs before rotating.
    pub sched_scan_timeout_secs: u64,
    /// Whether the next PNO start begins a fresh rotation cycle (and resets
    /// interval/timeout).
    pub sched_scan_first: bool,
    /// Index of the next hidden SSID to probe (rotation across scans).
    pub scan_ssid_cursor: usize,
    /// Drivers accepting only one SSID per scan get wildcard and
    /// specific-SSID scans interleaved; true when the next round should be
    /// the wildcard probe.
    pub scan_wildcard_next: bool,
    /// Whether the next connection attempt may use the configured network
    /// hints: a complete hint set is tried scan-free, otherwise the first
    /// host scan is restricted to hinted frequencies. Cleared once either
    /// path has been tried.
    pub hint_scan: bool,
}

/// FT key context of a connection (802.11r roaming).
#[derive(Debug, Clone)]
pub struct FtContext {
    /// PMK-R1 of the AP associated with.
    pub pmk_r1: PmkR1,
    /// MDIE and FTIE of the association response.
    pub assoc_resp_ft_ies: Vec<u8>,
}

/// State that lives with the current target/association: the selected network
/// and BSS, plus the 4-way/FT state that survives until the next disconnect.
pub struct Link {
    /// The configured network whose BSS the scan phase selected; carries the
    /// passphrase used for authentication.
    pub network: NetworkConfig,
    /// Best BSS found by the scan phase.
    pub bss_info: BssInfo,
    /// 4-way handshake state (shared by all auth methods).
    pub fourway: Option<FourWayState>,
    /// The PMKSA entry of the connection attempt in flight, when the
    /// association is (to be) done with a cached PMKID.
    pub pmksa_in_use: Option<PmksaEntry>,
    /// FT key context of the current connection (802.11r roaming).
    pub ft: Option<FtContext>,
    /// A 4-way Message 1 that arrived before the FT context could be built
    /// from the association response event (the two can race).
    pub pending_ft_msg1: Option<Vec<u8>>,
}

/// Per-attempt pre-association and key-derivation state. Reset at the start
/// of every new connection attempt.
pub struct AuthSession {
    /// Active pre-association authentication method.
    pub method: Option<AuthMethod>,
    /// OWE DH exchange state (only for OWE networks).
    pub owe: Option<OweAuth>,
    /// WPA2-PSK PMK derived via PBKDF2 (only for WPA2-PSK networks).
    pub psk_pmk: Option<[u8; 32]>,
    /// EAP peer state machine for 802.1X networks.
    pub eap_peer: Option<EapPeer<EapTlsMethod>>,
    /// PMK derived from the EAP MSK after EAP-Success (enterprise).
    pub eap_pmk: Option<[u8; 32]>,
    /// SAE commit retransmission state: true while we await the AP's commit;
    /// on a timeout the same commit is re-sent (the 802.11 SAE Sync counter,
    /// max 3) instead of paying a full rescan cycle for one lost frame.
    pub sae_commit_sent: bool,
    /// SAE Sync counter: number of commit retransmissions so far.
    pub sae_sync: u8,
    /// The last SAE commit auth_data, re-sent verbatim on a timeout.
    pub sae_commit_auth_data: Vec<u8>,
    /// The commit was rejected or stayed unanswered and the exchange restarted
    /// with the other PWE derivation method (never retried a second time).
    pub sae_hnp_attempted: bool,
}

/// Roaming state: in-flight FT roams, roam scans, BTM/RRM bookkeeping and the
/// CQM/background-scan triggers.
#[derive(Debug, Clone)]
pub struct RoamEngine {
    /// Whether an FT roam is in flight.
    pub ft_roam: bool,
    /// The scan in progress was triggered to find roam candidates (not to
    /// connect); its results go through the roam decision instead of the
    /// normal authentication flow.
    pub roam_scan: bool,
    /// The connected state the client was in when the roam scan started;
    /// restored when the roam scan decides to stay on the current BSS
    /// (otherwise the state machine would fall through into a fresh
    /// authentication to the AP it is already connected to).
    pub pre_roam_state: Option<WifiState>,
    /// BSSID the next connection attempt should prefer (set before a
    /// roam-induced disconnect steers the retry loop to the target).
    pub roam_target: Option<[u8; 6]>,
    /// Every BSS matching a configured network from the last scan (with the
    /// matched network) - the roam decision picks among these.
    pub last_scan_candidates: Vec<(BssInfo, NetworkConfig)>,
    /// Frequencies where the connected ESS (or its BTM neighbor-report
    /// entries) has been seen. The first roam scan of a signal-triggered
    /// episode is restricted to these; only the fallback sweeps all channels.
    pub roam_freqs: Vec<u32>,
    /// Whether the current roam episode has already started a full
    /// all-channel scan.
    pub roam_scan_full: bool,
    /// Dialog token of the 802.11k Neighbor Report Request in flight, if any.
    pub pending_nr_dialog: Option<u8>,
    /// Number of 802.11k Neighbor Report Responses received and parsed.
    pub neighbor_report_responses: u64,
    /// When the last roam finished (seconds).
    pub last_roam: Option<u64>,
    /// Whether the kernel connection quality monitor (CQM) is armed with the
    /// roam threshold.
    pub cqm_armed: bool,
    /// Whether the scan in flight was started by the low-frequency proactive
    /// background scan.
    pub background_scan: bool,
    /// Number of roam scans whose candidate dump was collected.
    pub roam_scan_count: u64,
}

/// WoWLAN state that changes at runtime. The supported trigger set is part of
/// [`WiphyCaps`].
#[derive(Debug, Clone, Copy, PartialEq, Eq)]
pub struct WowlanState {
    /// Whether WoWLAN triggers are currently armed on the device.
    pub armed: bool,
}

impl ScanEngine {
    /// What holds of every scan engine: the backoff and the PNO interval are
    /// within their bounds.
    pub open spec fn wf(self) -> bool {
        &&& RETRY_BACKOFF_INIT_SEC <= self.scan_retry_interval <= RETRY_BACKOFF_MAX_SEC
        &&& SCHED_SCAN_INTERVAL_SEC <= self.sched_scan_interval_sec <= RETRY_BACKOFF_MAX_SEC
    }

    /// A scan engine before its first scan.
    pub open spec fn fresh() -> ScanEngine {
        ScanEngine {
            scan_retry_interval: RETRY_BACKOFF_INIT_SEC,
            sched_scan_active: false,
            sched_scan_stop_pending: false,
            sched_scan_cursor: 0,
            sched_scan_more: false,
            sched_scan_rotate: false,
            sched_scan_interval_sec: SCHED_SCAN_INTERVAL_SEC,
            sched_scan_timeout_secs: SCHED_SCAN_WATCHDOG_SECS,
            sched_scan_first: true,
            scan_ssid_cursor: 0,
            scan_wildcard_next: true,
            hint_scan: true,
        }
    }

    /// A scan engine before its first scan.
    pub fn new() -> (r: Self)
        ensures
            r == ScanEngine::fresh(),
    {
        ScanEngine {
            scan_retry_interval: RETRY_BACKOFF_INIT_SEC,
            sched_scan_active: false,
            sched_scan_stop_pending: false,
            sched_scan_cursor: 0,
            sched_scan_more: false,
            sched_scan_rotate: false,
            sched_scan_interval_sec: SCHED_SCAN_INTERVAL_SEC,
            sched_scan_timeout_secs: SCHED_SCAN_WATCHDOG_SECS,
            sched_scan_first: true,
            scan_ssid_cursor: 0,
            scan_wildcard_next: true,
            hint_scan: true,
        }
    }

    /// Start a fresh SSID rotation cycle for both host scans and PNO.
    pub fn reset_rotation(&mut self)
        ensures
            *final(self) == (ScanEngine {
                scan_retry_interval: old(self).scan_retry_interval,
                sched_scan_active: old(self).sched_scan_active,
                sched_scan_stop_pending: old(self).sched_scan_stop_pending,
                ..ScanEngine::fresh()
            }),
    {
        self.scan_ssid_cursor = 0;
        self.scan_wildcard_next = true;
        self.sched_scan_cursor = 0;
        self.sched_scan_more = false;
        self.sched_scan_rotate = false;
        self.sched_scan_first = true;
        self.sched_scan_interval_sec = SCHED_SCAN_INTERVAL_SEC;
        self.sched_scan_timeout_secs = SCHED_SCAN_WATCHDOG_SECS;
        self.hint_scan = true;
    }
}

impl Link {
    /// Whether nothing but the network is known: no BSS and no keys.
    pub open spec fn is_reset(self) -> bool {
        &&& self.bss_info.is_none()
        &&& self.fourway is None
        &&& self.pmksa_in_use is None
        &&& self.ft is None
        &&& self.pending_ft_msg1 is None
    }

    /// A link that knows nothing but its network.
    pub fn new(network: NetworkConfig) -> (r: Self)
        ensures
            r.network == network,
            r.is_reset(),
    {
        Link {
            network,
            bss_info: BssInfo::none(),
            fourway: None,
            pmksa_in_use: None,
            ft: None,
            pending_ft_msg1: None,
        }
    }

    /// Reset every per-association field.
    pub fn reset_for_update(&mut self, network: NetworkConfig)
        ensures
            final(self).network == network,
            final(self).is_reset(),
    {
        *self = Link::new(network);
    }
}

impl AuthSession {
    /// What holds of every session: its exchanges are well-formed.
    pub open spec fn wf(self) -> bool {
        &&& self.method matches Some(m) ==> m.wf()
        &&& self.owe matches Some(o) ==> o.wf()
        &&& self.sae_sync <= SAE_SYNC_MAX
    }

    /// Whether no attempt has begun.
    pub open spec fn is_reset(self) -> bool {
        &&& self.method is None
        &&& self.owe is None
        &&& self.psk_pmk is None
        &&& self.eap_peer is None
        &&& self.eap_pmk is None
        &&& !self.sae_commit_sent
        &&& self.sae_sync == 0
        &&& self.sae_commit_auth_data@.len() == 0
        &&& !self.sae_hnp_attempted
    }

    /// A session in which no attempt has begun.
    pub fn new() -> (r: Self)
        ensures
            r.is_reset(),
            r.wf(),
    {
        AuthSession {
            method: None,
            owe: None,
            psk_pmk: None,
            eap_peer: None,
            eap_pmk: None,
            sae_commit_sent: false,
            sae_sync: 0,
            sae_commit_auth_data: Vec::new(),
            sae_hnp_attempted: false,
        }
    }

    /// Drop all per-attempt key and EAP/SAE state.
    pub fn reset(&mut self)
        ensures
            final(self).is_reset(),
            final(self).wf(),
    {
        *self = AuthSession::new();
    }
}

impl RoamEngine {
    /// Whether no roam has begun.
    pub open spec fn is_reset(self) -> bool {
        &&& !self.ft_roam
        &&& !self.roam_scan
        &&& self.pre_roam_state is None
        &&& self.roam_target is None
        &&& self.last_scan_candidates@.len() == 0
        &&& self.roam_freqs@.len() == 0
        &&& !self.roam_scan_full
        &&& self.pending_nr_dialog is None
        &&& self.neighbor_report_responses == 0
        &&& self.last_roam is None
    }

    /// An engine in which no roam has begun.
    pub fn new() -> (r: Self)
        ensures
            r.is_reset(),
            !r.cqm_armed,
            !r.background_scan,
            r.roam_scan_count == 0,
    {
        RoamEngine {
            ft_roam: false,
            roam_scan: false,
            pre_roam_state: None,
            roam_target: None,
            last_scan_candidates: Vec::new(),
            roam_freqs: Vec::new(),
            roam_scan_full: false,
            pending_nr_dialog: None,
            neighbor_report_responses: 0,
            last_roam: None,
            cqm_armed: false,
            background_scan: false,
            roam_scan_count: 0,
        }
    }

    /// Drop the per-attempt roam, BTM/RRM and cooldown bookkeeping that must
    /// not survive a network-list update. Runtime CQM and background-scan
    /// flags stay.
    pub fn reset(&mut self)
        ensures
            final(self).is_reset(),
            final(self).cqm_armed == old(self).cqm_armed,
            final(self).background_scan == old(self).background_scan,
            final(self).roam_scan_count == old(self).roam_scan_count,
    {
        self.ft_roam = false;
        self.roam_scan = false;
        self.pre_roam_state = None;
        self.roam_target = None;
        self.last_scan_candidates = Vec::new();
        self.roam_freqs = Vec::new();
        self.roam_scan_full = false;
        self.pending_nr_dialog = None;
        self.neighbor_report_responses = 0;
        self.last_roam = None;
    }
}

/// One interface: what is configured, what the wiphy can do, and how far the
/// connection has come.
pub struct WifiIface {
    pub core: IfaceCore,
    pub caps: WiphyCaps,
    pub scan: ScanEngine,
    pub link: Link,
    pub auth: AuthSession,
    pub roam: RoamEngine,
    pub wowlan: WowlanState,
    pub state: WifiState,
    /// PMKSA cache: reconnects and roams to a cached BSS skip the full
    /// authentication.
    pub pmksa_cache: PmksaCache,
    /// The most recent connection/auth error attached to a state change,
    /// surfaced once to the caller (e.g. a wrong-password rejection). Cleared
    /// when reported.
    pub last_error: Option<WifiError>,
}

impl WifiIface {
    /// What holds of every interface.
    pub open spec fn wf(self) -> bool {
        &&& self.scan.wf()
        &&& self.auth.wf()
    }

    /// Validate the configuration and prepare one interface state machine.
    /// `sched_scan` and `wowlan_triggers` are what the wiphy was asked for,
    /// none where the question failed: then the feature counts as missing. A
    /// wiphy that advertises no per-scan SSID cap (0) gets wildcard-only
    /// scans, so a request can never be rejected for asking the driver to
    /// probe too many SSIDs.
    pub fn init(
        if_index: u32,
        mac: [u8; 6],
        config: WifiConfig,
        sched_scan: Option<WiphySchedScanCaps>,
        max_scan_count: u8,
        wowlan_triggers: Option<Vec<WowlanTrigger>>,
    ) -> (r: Result<Self, WifiError>)
        ensures
            match r {
                Ok(i) => {
                    &&& config.networks@.len() > 0
                    &&& i.wf()
                    &&& i.core == (IfaceCore { if_index, mac, config })
                    &&& i.link.network@ == config.networks@[0]@
                    &&& i.link.is_reset()
                    &&& i.auth.is_reset()
                    &&& i.roam.is_reset()
                    &&& !i.roam.cqm_armed
                    &&& !i.roam.background_scan
                    &&& i.roam.roam_scan_count == 0
                    &&& i.scan == ScanEngine::fresh()
                    &&& !i.wowlan.armed
                    &&& i.state == WifiState::Init
                    &&& i.pmksa_cache@.dom().is_empty()
                    &&& i.last_error is None
                    &&& i.caps.sched_scan_supported == (sched_scan matches Some(c) && c.supported)
                    &&& i.caps.max_sched_scan_ssids == match sched_scan {
                        Some(c) => c.max_ssids,
                        None => 0,
                    }
                    &&& i.caps.max_match_sets == match sched_scan {
                        Some(c) => c.max_match_sets,
                        None => 0,
                    }
                    &&& i.caps.max_scan_ssids == if max_scan_count > 0 {
                        max_scan_count as usize
                    } else {
                        1
                    }
                    &&& i.caps.wowlan_supported_triggers@ == match wowlan_triggers {
                        Some(t) => t@,
                        None => Seq::empty(),
                    }
                },
                Err(e) => {
                    &&& config.networks@.len() == 0
                    &&& e.is(ErrorKind::InvalidConfig, "WifiConfig: no networks configured"@)
                },
            },
    {
        let (sched_scan_supported, max_sched_scan_ssids, max_match_sets) = match sched_scan {
            Some(c) => (c.supported, c.max_ssids, c.max_match_sets),
            None => (false, 0, 0),
        };
        let max_scan_ssids: usize = if max_scan_count > 0 {
            max_scan_count as usize
        } else {
            1
        };
        let wowlan_supported_triggers = match wowlan_triggers {
            Some(t) => t,
            None => Vec::new(),
        };
        if config.networks.len() == 0 {
            return Err(
                WifiError::new(ErrorKind::InvalidConfig, "WifiConfig: no networks configured"),
            );
        }
        let network = config.networks[0].copy();
        let pmksa_cache = PmksaCache::new();
        assert(pmksa_cache@.dom() =~= Set::empty());
        Ok(
            WifiIface {
                core: IfaceCore { if_index, mac, config },
                caps: WiphyCaps {
                    sched_scan_supported,
                    max_sched_scan_ssids,
                    max_match_sets,
                    max_scan_ssids,
                    wowlan_supported_triggers,
                },
                scan: ScanEngine::new(),
                link: Link::new(network),
                auth: AuthSession::new(),
                roam: RoamEngine::new(),
                wowlan: WowlanState { armed: false },
                state: WifiState::Init,
                pmksa_cache,
                last_error: None,
            },
        )
    }

    /// Move into [`WifiState::FailedAuthentication`] and record the error for
    /// the caller.
    pub fn fail_auth(&mut self, error: WifiError)
        ensures
            *final(self) == (WifiIface {
                last_error: Some(error),
                state: WifiState::FailedAuthentication,
                ..*old(self)
            }),
    {
        self.last_error = Some(error);
        self.state = WifiState::FailedAuthentication;
    }

    /// SSID of the network the client is currently working toward. Before the
    /// first scan selects a BSS this is the first configured network; after a
    /// successful scan it is the network whose BSS was selected (and whose
    /// passphrase is used for authentication).
    pub fn current_ssid(&self) -> (r: &str)
        ensures
            r@ == self.link.network.ssid@,
    {
        self.link.network.ssid.as_str()
    }

    /// BSSID of the BSS the client is currently working toward. Before the
    /// first scan selects a BSS this is all-zero; after a successful scan it
    /// is the selected BSS's BSSID.
    pub fn current_bssid(&self) -> (r: [u8; 6])
        ensures
            r == self.link.bss_info.bssid,
    {
        self.link.bss_info.bssid
    }

    /// Whether the wiphy advertises WoWLAN triggers the client can arm
    /// (disconnect and/or GTK rekey failure).
    pub fn wowlan_supported(&self) -> (r: bool)
        ensures
            r == (policy::wanted_triggers(self.caps.wowlan_supported_triggers@).len() > 0),
    {
        policy::desired_wowlan_triggers(self.caps.wowlan_supported_triggers.as_slice()).len() > 0
    }

    /// Whether a network's SSID is among the configured ones.
    pub open spec fn keeps(networks: Seq<Network>, ssid: Seq<char>) -> bool {
        exists|i: int| 0 <= i < networks.len() && #[trigger] networks[i].ssid == ssid
    }
}

} // verus!
