//! Configuration of the client: interfaces, networks and hints.

use vstd::prelude::*;
use vstd::string::*;

use crate::bytes;
use crate::ieee80211::elements::CipherSuite;
use crate::scan::{BssInfo, MdieInfo, SecurityType};
use crate::text;

verus! {

/// Default roam threshold (-70 dBm).
pub const DEFAULT_ROAM_THRESHOLD_DBM: i32 = -70;

/// Default signal level (dBm) below which the current link is treated as
/// critical and may be abandoned for a well-signalled BSS of a *different*
/// configured SSID.
pub const DEFAULT_SWITCH_SSID_LOWER_THAN_DBM: i32 = -80;

/// SAE PWE derivation mode for a WPA3-Personal network.
///
/// WPA3 APs derive the SAE password element either with hash-to-element
/// (H2E, RFC 9380) or with hunting-and-pecking (HnP, RFC 7664); an H2E-only
/// STA cannot connect to an HnP-only AP. `Auto` (the default) follows the
/// AP's RSNXE from the scan: H2E when the AP advertises it,
/// hunting-and-pecking otherwise. Either way it still falls back to the other
/// method if the first commit is rejected or silently dropped, so a
/// missing/misleading RSNXE cannot strand the connection.
#[derive(Debug, Clone, Copy, PartialEq, Eq, Structural)]
#[non_exhaustive]
pub enum SaePwe {
    /// Hash-to-element only.
    H2E,
    /// Hunting-and-pecking only (RFC 7664), for HnP-only APs.
    HnP,
    /// Follow the AP's advertised RSNXE Hash-to-Element capability, falling
    /// back to the other method when the first commit fails.
    Auto,
}

impl Default for SaePwe {
    fn default() -> (r: Self)
        ensures
            r == SaePwe::Auto,
    {
        SaePwe::Auto
    }
}

impl SaePwe {
    /// Whether the initial commit should use hash-to-element. Explicit
    /// `H2E`/`HnP` override the AP; `Auto` follows `ap_supports_h2e`, which
    /// the caller derives from the selected BSS's RSNXE.
    pub fn starts_h2e(self, ap_supports_h2e: bool) -> (r: bool)
        ensures
            r == (self == SaePwe::H2E || self == SaePwe::Auto && ap_supports_h2e),
    {
        match self {
            SaePwe::H2E => true,
            SaePwe::HnP => false,
            SaePwe::Auto => ap_supports_h2e,
        }
    }

    /// Whether a rejected/timed-out commit may fall back to the other PWE
    /// derivation method.
    pub fn allows_hnp_fallback(self) -> (r: bool)
        ensures
            r == (self == SaePwe::Auto),
    {
        matches!(self, SaePwe::Auto)
    }
}

/// The view of an optional text.
pub open spec fn opt_text(t: Option<String>) -> Option<Seq<char>> {
    match t {
        Some(s) => Some(s@),
        None => None,
    }
}

/// The view of optional octets.
pub open spec fn opt_octets(v: Option<Vec<u8>>) -> Option<Seq<u8>> {
    match v {
        Some(b) => Some(b@),
        None => None,
    }
}

/// The view of an optional address.
pub open spec fn opt_bssid(v: Option<[u8; 6]>) -> Option<Seq<u8>> {
    match v {
        Some(b) => Some(b@),
        None => None,
    }
}

/// The view of an optional mobility domain id.
pub open spec fn opt_mdid(v: Option<[u8; 2]>) -> Option<Seq<u8>> {
    match v {
        Some(b) => Some(b@),
        None => None,
    }
}

/// Another value of the same text.
pub fn copy_text(t: &String) -> (r: String)
    ensures
        r@ == t@,
{
    text::text(t.as_str())
}

/// Another value of the same optional text.
pub fn copy_opt_text(t: &Option<String>) -> (r: Option<String>)
    ensures
        opt_text(r) == opt_text(*t),
{
    match t {
        Some(s) => Some(copy_text(s)),
        None => None,
    }
}

/// Another value of the same optional octets.
pub fn copy_opt_octets(v: &Option<Vec<u8>>) -> (r: Option<Vec<u8>>)
    ensures
        opt_octets(r) == opt_octets(*v),
{
    match v {
        Some(b) => Some(bytes::to_vec(b.as_slice())),
        None => None,
    }
}

/// Whether two optional texts are equal.
fn same_opt_text(a: &Option<String>, b: &Option<String>) -> (r: bool)
    ensures
        r == (opt_text(*a) == opt_text(*b)),
{
    match (a, b) {
        (Some(x), Some(y)) => text::same_text(x, y),
        (None, None) => true,
        _ => false,
    }
}

/// Whether two optional octet strings are equal.
fn same_opt_octets(a: &Option<Vec<u8>>, b: &Option<Vec<u8>>) -> (r: bool)
    ensures
        r == (opt_octets(*a) == opt_octets(*b)),
{
    match (a, b) {
        (Some(x), Some(y)) => bytes::same(x.as_slice(), y.as_slice()),
        (None, None) => true,
        _ => false,
    }
}

/// Whether two optional addresses are equal.
fn same_opt_bssid(a: &Option<[u8; 6]>, b: &Option<[u8; 6]>) -> (r: bool)
    ensures
        r == (opt_bssid(*a) == opt_bssid(*b)),
{
    match (a, b) {
        (Some(x), Some(y)) => bytes::same(x, y),
        (None, None) => true,
        _ => false,
    }
}

/// Whether two optional mobility domain ids are equal.
fn same_opt_mdid(a: &Option<[u8; 2]>, b: &Option<[u8; 2]>) -> (r: bool)
    ensures
        r == (opt_mdid(*a) == opt_mdid(*b)),
{
    match (a, b) {
        (Some(x), Some(y)) => bytes::same(x, y),
        (None, None) => true,
        _ => false,
    }
}

/// Whether two number lists are equal.
fn same_numbers(a: &Vec<u32>, b: &Vec<u32>) -> (r: bool)
    ensures
        r == (a@ == b@),
{
    if a.len() != b.len() {
        return false;
    }
    let mut i: usize = 0;
    while i < a.len()
        invariant
            i <= a@.len(),
            a@.len() == b@.len(),
            forall|j: int| 0 <= j < i ==> a@[j] == b@[j],
        decreases a@.len() - i,
    {
        if a[i] != b[i] {
            assert(a@[i as int] != b@[i as int]);
            return false;
        }
        i = i + 1;
    }
    assert(a@ =~= b@);
    true
}

/// Another value of the same number list.
fn copy_numbers(v: &Vec<u32>) -> (r: Vec<u32>)
    ensures
        r@ == v@,
{
    let mut r: Vec<u32> = Vec::new();
    let mut i: usize = 0;
    while i < v.len()
        invariant
            i <= v@.len(),
            r@ == v@.take(i as int),
        decreases v@.len() - i,
    {
        r.push(v[i]);
        i = i + 1;
        assert(r@ =~= v@.take(i as int));
    }
    assert(v@.take(i as int) =~= v@);
    r
}

/// Optional user-provided hints that let the client find a network faster.
///
/// Hints are guesses, not hard constraints: they are tried first, with the
/// normal scan flow as fallback when they miss.
///
/// When every scan-free field is set (`bssid`, `frequency_mhz`, `security`,
/// `ap_rsne`, `ap_rsnxe` and `group_mgmt_cipher`), the client skips the scan
/// and authenticates directly. When any of them is `None`, the set fields are
/// used as a best-effort quick scan and the full scan is the fallback.
#[derive(Debug, Clone, PartialEq, Eq)]
#[non_exhaustive]
pub struct NetworkConfigHints {
    /// Frequencies (MHz) where the API user expects this network's APs. The
    /// first host scan is restricted to these channels; if no configured SSID
    /// is found, a full scan follows.
    pub frequencies_mhz: Vec<u32>,
    /// BSSID of the AP this hint refers to. Required for the scan-free path.
    pub bssid: Option<[u8; 6]>,
    /// Frequency (MHz) of `bssid`. Required for the scan-free path.
    pub frequency_mhz: Option<u32>,
    /// Security mode detected on the AP. Required for the scan-free path.
    pub security: Option<SecurityType>,
    /// The AP's RSNE as a full element (ID 48 + length + body), empty for
    /// open networks. Required for the scan-free path.
    pub ap_rsne: Option<Vec<u8>>,
    /// The AP's RSNXE as a full element (ID 244 + length + body),
    /// `Some(vec![])` when the AP advertises none. Required for the scan-free
    /// path.
    pub ap_rsnxe: Option<Vec<u8>>,
    /// Negotiated group management (BIP) cipher. Required for the scan-free
    /// path.
    pub group_mgmt_cipher: Option<CipherSuite>,
    /// Mobility Domain ID of an FT-capable AP. Optional; both `mdid` and
    /// `ft_capab` must be set to restore the MDIE.
    pub mdid: Option<[u8; 2]>,
    /// FT capability octet of the AP's MDIE. Optional; both `mdid` and
    /// `ft_capab` must be set to restore the MDIE.
    pub ft_capab: Option<u8>,
    /// Whether the AP advertises BSS Transition Management (802.11v).
    /// Optional; defaults to `false`.
    pub btm_support: Option<bool>,
    /// Whether the AP advertises Neighbor Report (802.11k). Optional;
    /// defaults to `false`.
    pub rm_neighbor_report: Option<bool>,
}

/// What hints say.
#[verifier::ext_equal]
pub struct Hints {
    pub frequencies_mhz: Seq<u32>,
    pub bssid: Option<Seq<u8>>,
    pub frequency_mhz: Option<u32>,
    pub security: Option<SecurityType>,
    pub ap_rsne: Option<Seq<u8>>,
    pub ap_rsnxe: Option<Seq<u8>>,
    pub group_mgmt_cipher: Option<CipherSuite>,
    pub mdid: Option<Seq<u8>>,
    pub ft_capab: Option<u8>,
    pub btm_support: Option<bool>,
    pub rm_neighbor_report: Option<bool>,
}

impl View for NetworkConfigHints {
    type V = Hints;

    open spec fn view(&self) -> Hints {
        Hints {
            frequencies_mhz: self.frequencies_mhz@,
            bssid: opt_bssid(self.bssid),
            frequency_mhz: self.frequency_mhz,
            security: self.security,
            ap_rsne: opt_octets(self.ap_rsne),
            ap_rsnxe: opt_octets(self.ap_rsnxe),
            group_mgmt_cipher: self.group_mgmt_cipher,
            mdid: opt_mdid(self.mdid),
            ft_capab: self.ft_capab,
            btm_support: self.btm_support,
            rm_neighbor_report: self.rm_neighbor_report,
        }
    }
}

impl Hints {
    /// No hints at all.
    pub open spec fn none() -> Hints {
        Hints {
            frequencies_mhz: Seq::empty(),
            bssid: None,
            frequency_mhz: None,
            security: None,
            ap_rsne: None,
            ap_rsnxe: None,
            group_mgmt_cipher: None,
            mdid: None,
            ft_capab: None,
            btm_support: None,
            rm_neighbor_report: None,
        }
    }

    /// Whether the hints are complete enough for a connection without a
    /// scan.
    pub open spec fn scan_free(self) -> bool {
        &&& self.bssid matches Some(b) && b != bytes::zeros(6)
        &&& self.frequency_mhz matches Some(f) && f != 0
        &&& self.security matches Some(s) && s != SecurityType::Unsupported
        &&& self.ap_rsne is Some
        &&& self.ap_rsnxe is Some
        &&& self.group_mgmt_cipher is Some
    }

    /// Whether `b` is the BSS that complete hints describe.
    pub open spec fn describes(self, b: BssInfo) -> bool {
        &&& self.bssid == Some(b.bssid@)
        &&& self.frequency_mhz == Some(b.freq_mhz)
        &&& b.signal_dbm == 0
        &&& self.security == Some(b.security)
        &&& self.ap_rsne == Some(b.ap_rsne@)
        &&& self.ap_rsnxe == Some(b.ap_rsnxe@)
        &&& self.group_mgmt_cipher == Some(b.group_mgmt_cipher)
        &&& b.mdie is Some <==> self.mdid is Some && self.ft_capab is Some
        &&& b.mdie matches Some(m) ==> self.mdid == Some(m.mdid@) && self.ft_capab == Some(
            m.ft_capab,
        )
        &&& !b.hidden
        &&& b.btm_support == (self.btm_support == Some(true))
        &&& b.rm_neighbor_report == (self.rm_neighbor_report == Some(true))
    }
}

impl Default for NetworkConfigHints {
    fn default() -> (r: Self)
        ensures
            r@ == Hints::none(),
    {
        NetworkConfigHints::new()
    }
}

impl NetworkConfigHints {
    /// Create an empty hint set.
    pub fn new() -> (r: Self)
        ensures
            r@ == Hints::none(),
    {
        let r = NetworkConfigHints {
            frequencies_mhz: Vec::new(),
            bssid: None,
            frequency_mhz: None,
            security: None,
            ap_rsne: None,
            ap_rsnxe: None,
            group_mgmt_cipher: None,
            mdid: None,
            ft_capab: None,
            btm_support: None,
            rm_neighbor_report: None,
        };
        assert(r@ =~= Hints::none());
        r
    }

    /// Replace the frequency hint list.
    pub fn with_frequencies_mhz(self, frequencies_mhz: Vec<u32>) -> (r: Self)
        ensures
            r == (NetworkConfigHints { frequencies_mhz, ..self }),
    {
        let mut this = self;
        this.frequencies_mhz = frequencies_mhz;
        this
    }

    /// Another value of the same hints.
    pub fn copy(&self) -> (r: Self)
        ensures
            r@ == self@,
    {
        let r = NetworkConfigHints {
            frequencies_mhz: copy_numbers(&self.frequencies_mhz),
            bssid: self.bssid,
            frequency_mhz: self.frequency_mhz,
            security: self.security,
            ap_rsne: copy_opt_octets(&self.ap_rsne),
            ap_rsnxe: copy_opt_octets(&self.ap_rsnxe),
            group_mgmt_cipher: self.group_mgmt_cipher,
            mdid: self.mdid,
            ft_capab: self.ft_capab,
            btm_support: self.btm_support,
            rm_neighbor_report: self.rm_neighbor_report,
        };
        assert(r@ =~= self@);
        r
    }

    /// Whether two hint sets say the same.
    pub fn same(&self, other: &Self) -> (r: bool)
        ensures
            r == (self@ == other@),
    {
        let r = same_numbers(&self.frequencies_mhz, &other.frequencies_mhz) && same_opt_bssid(
            &self.bssid,
            &other.bssid,
        ) && self.frequency_mhz == other.frequency_mhz && self.security == other.security
            && same_opt_octets(&self.ap_rsne, &other.ap_rsne) && same_opt_octets(
            &self.ap_rsnxe,
            &other.ap_rsnxe,
        ) && self.group_mgmt_cipher == other.group_mgmt_cipher && same_opt_mdid(
            &self.mdid,
            &other.mdid,
        ) && self.ft_capab == other.ft_capab && self.btm_support == other.btm_support
            && self.rm_neighbor_report == other.rm_neighbor_report;
        r
    }

    /// Rebuild the BSS information required by the scan-free path.
    ///
    /// Returns `None` when any scan-free property is missing or the security
    /// type is unsupported; the caller should then fall back to a normal
    /// scan. The scan-free path has no signal measurement, and the
    /// authentication path never reads it: 0 is only a placeholder.
    pub fn bss_info(&self) -> (r: Option<BssInfo>)
        ensures
            r is Some <==> self@.scan_free(),
            r matches Some(b) ==> self@.describes(b),
    {
        let bssid = match self.bssid {
            Some(b) => b,
            None => {
                return None;
            },
        };
        let zero: [u8; 6] = [0u8; 6];
        assert(zero@ =~= bytes::zeros(6));
        if bytes::same(&bssid, &zero) {
            return None;
        }
        let freq_mhz: u32 = match self.frequency_mhz {
            Some(f) => f,
            None => {
                return None;
            },
        };
        if freq_mhz == 0 {
            return None;
        }
        let security = match self.security {
            Some(s) => s,
            None => {
                return None;
            },
        };
        if security == SecurityType::Unsupported {
            return None;
        }
        match (&self.ap_rsne, &self.ap_rsnxe, self.group_mgmt_cipher) {
            (Some(ap_rsne), Some(ap_rsnxe), Some(group_mgmt_cipher)) => Some(
                BssInfo {
                    bssid,
                    freq_mhz,
                    signal_dbm: 0,
                    security,
                    ap_rsne: bytes::to_vec(ap_rsne.as_slice()),
                    ap_rsnxe: bytes::to_vec(ap_rsnxe.as_slice()),
                    group_mgmt_cipher,
                    mdie: match (self.mdid, self.ft_capab) {
                        (Some(mdid), Some(ft_capab)) => Some(MdieInfo { mdid, ft_capab }),
                        _ => None,
                    },
                    hidden: false,
                    btm_support: self.btm_support == Some(true),
                    rm_neighbor_report: self.rm_neighbor_report == Some(true),
                },
            ),
            _ => None,
        }
    }
}

/// EAP credential configuration: identity, certificate paths, and the TLS
/// server name used for certificate validation.
#[derive(Debug, Clone, PartialEq)]
#[non_exhaustive]
pub struct EapConfig {
    /// EAP identity (outer identity) sent in the Identity exchange.
    pub identity: String,
    /// Path of the PEM CA certificate used to validate the EAP server.
    pub ca_cert: Option<String>,
    /// Path of the PEM client certificate (EAP-TLS).
    pub client_cert: Option<String>,
    /// Path of the PEM client private key (EAP-TLS).
    pub client_key: Option<String>,
    /// TLS server name for certificate validation (SNI / SAN match).
    pub server_name: Option<String>,
}

/// What EAP credentials say.
#[verifier::ext_equal]
pub struct Eap {
    pub identity: Seq<char>,
    pub ca_cert: Option<Seq<char>>,
    pub client_cert: Option<Seq<char>>,
    pub client_key: Option<Seq<char>>,
    pub server_name: Option<Seq<char>>,
}

impl View for EapConfig {
    type V = Eap;

    open spec fn view(&self) -> Eap {
        Eap {
            identity: self.identity@,
            ca_cert: opt_text(self.ca_cert),
            client_cert: opt_text(self.client_cert),
            client_key: opt_text(self.client_key),
            server_name: opt_text(self.server_name),
        }
    }
}

impl Default for EapConfig {
    fn default() -> (r: Self)
        ensures
            r@ == (Eap {
                identity: Seq::empty(),
                ca_cert: None,
                client_cert: None,
                client_key: None,
                server_name: None,
            }),
    {
        let identity = String::new();
        assert(identity@ =~= Seq::<char>::empty());
        EapConfig { identity, ca_cert: None, client_cert: None, client_key: None, server_name: None }
    }
}

impl EapConfig {
    /// Another value of the same credentials.
    pub fn copy(&self) -> (r: Self)
        ensures
            r@ == self@,
    {
        let r = EapConfig {
            identity: copy_text(&self.identity),
            ca_cert: copy_opt_text(&self.ca_cert),
            client_cert: copy_opt_text(&self.client_cert),
            client_key: copy_opt_text(&self.client_key),
            server_name: copy_opt_text(&self.server_name),
        };
        assert(r@ =~= self@);
        r
    }

    /// Whether two sets of credentials say the same.
    pub fn same(&self, other: &Self) -> (r: bool)
        ensures
            r == (self@ == other@),
    {
        text::same_text(&self.identity, &other.identity) && same_opt_text(
            &self.ca_cert,
            &other.ca_cert,
        ) && same_opt_text(&self.client_cert, &other.client_cert) && same_opt_text(
            &self.client_key,
            &other.client_key,
        ) && same_opt_text(&self.server_name, &other.server_name)
    }
}

/// A single WiFi network: an SSID with an optional passphrase and its own
/// roaming settings. Open networks carry `password: None`.
///
/// Signal-triggered roaming is on by default with a -70 dBm threshold; IEEE
/// 802.11 (BSS transition management, 802.11v §11.21.7) leaves client-side
/// roaming policy to the implementation. The threshold is deliberately
/// band-agnostic: per-band thresholds are added only if users ask for them.
/// The signal is tracked by the kernel's connection quality monitor
/// (`NL80211_CMD_SET_CQM`, beacon-based and power-save stable), polling every
/// few seconds only on drivers without CQM support, and a roam scan is only
/// started against an AP that advertises a managed-roaming capability
/// (802.11v BSS Transition or 802.11k Neighbor Report). BTM (802.11v)
/// Requests are honoured regardless of `roaming`.
#[derive(Debug, Clone, PartialEq)]
#[non_exhaustive]
pub struct NetworkConfig {
    pub ssid: String,
    pub password: Option<String>,
    /// Optional hints that speed up the initial connection attempt. Complete
    /// hints enable a scan-free connect; partial hints (e.g. frequencies)
    /// enable a best-effort quick scan with the normal scan flow as fallback.
    pub hints: NetworkConfigHints,
    /// When `false`, no signal-triggered roam scans are started while
    /// connected to this SSID. Defaults to `true`.
    pub roaming: bool,
    /// Signal level (dBm) below which the client scans for roam candidates
    /// while connected to this SSID. Defaults to
    /// [`DEFAULT_ROAM_THRESHOLD_DBM`].
    pub roaming_threshold: i32,
    /// Signal level (dBm) below which the current link is considered
    /// critical: a roam scan then also considers a well-signalled BSS of a
    /// *different* configured SSID and switches to it, even though that
    /// terminates the current session. Defaults to
    /// [`DEFAULT_SWITCH_SSID_LOWER_THAN_DBM`].
    pub switch_ssid_lower_than_dbm: i32,
    /// Wake-on-WLAN (WoWLAN): when `true`, the client arms the `Disconnect`
    /// and `GtkRekeyFailure` triggers (as supported by the wiphy) while
    /// connected, so the device can wake the host on suspend. Defaults to
    /// `false` - opt in per network.
    pub wowlan: bool,
    /// Hidden network: the AP does not put its SSID in beacons and only
    /// answers directed probe requests that carry its name. Mark this `true`
    /// to probe for the SSID with a specific probe request. Visible networks
    /// (the default) are found by the wildcard SSID entry that every scan
    /// carries.
    pub hidden: bool,
    /// EAP credentials for 802.1X networks (WPA-Enterprise / wired 802.1X).
    /// `None` for PSK/SAE/open networks.
    pub eap: Option<EapConfig>,
    /// SAE PWE derivation mode (WPA3-Personal only). Defaults to
    /// [`SaePwe::Auto`]: hash-to-element first, hunting-and-pecking fallback
    /// for HnP-only APs.
    pub sae_pwe: SaePwe,
    /// Optional SAE password identifier. When set, the client derives the H2E
    /// PWE with the identifier, includes it in the SAE commit, and never falls
    /// back to hunting-and-pecking (password identifiers are H2E-only).
    pub sae_password_id: Option<String>,
    /// Operating Channel Validation (OCV): when `true`, the STA advertises the
    /// OCVC RSN capability, sends its OCI in 4-way Message 2, and verifies the
    /// AP's OCI in Message 3 and group rekeys. Defaults to `false`.
    pub ocv: bool,
    /// Extended Key ID: use pairwise key id 0/1 rotation for lossless PTK
    /// rekeys. Requires driver support and an AES-CC pairwise cipher; opt-in
    /// per network, defaults to `false`.
    pub ext_key_id: bool,
}

/// What a network configuration says.
#[verifier::ext_equal]
pub struct Network {
    pub ssid: Seq<char>,
    pub password: Option<Seq<char>>,
    pub hints: Hints,
    pub roaming: bool,
    pub roaming_threshold: i32,
    pub switch_ssid_lower_than_dbm: i32,
    pub wowlan: bool,
    pub hidden: bool,
    pub eap: Option<Eap>,
    pub sae_pwe: SaePwe,
    pub sae_password_id: Option<Seq<char>>,
    pub ocv: bool,
    pub ext_key_id: bool,
}

/// The view of optional EAP credentials.
pub open spec fn opt_eap(e: Option<EapConfig>) -> Option<Eap> {
    match e {
        Some(e) => Some(e@),
        None => None,
    }
}

impl View for NetworkConfig {
    type V = Network;

    open spec fn view(&self) -> Network {
        Network {
            ssid: self.ssid@,
            password: opt_text(self.password),
            hints: self.hints@,
            roaming: self.roaming,
            roaming_threshold: self.roaming_threshold,
            switch_ssid_lower_than_dbm: self.switch_ssid_lower_than_dbm,
            wowlan: self.wowlan,
            hidden: self.hidden,
            eap: opt_eap(self.eap),
            sae_pwe: self.sae_pwe,
            sae_password_id: opt_text(self.sae_password_id),
            ocv: self.ocv,
            ext_key_id: self.ext_key_id,
        }
    }
}

impl Network {
    /// A network with an SSID and every setting at its default.
    pub open spec fn named(ssid: Seq<char>) -> Network {
        Network {
            ssid,
            password: None,
            hints: Hints::none(),
            roaming: true,
            roaming_threshold: DEFAULT_ROAM_THRESHOLD_DBM,
            switch_ssid_lower_than_dbm: DEFAULT_SWITCH_SSID_LOWER_THAN_DBM,
            wowlan: false,
            hidden: false,
            eap: None,
            sae_pwe: SaePwe::Auto,
            sae_password_id: None,
            ocv: false,
            ext_key_id: false,
        }
    }
}

/// What a list of network configurations says.
pub open spec fn network_views(networks: Seq<NetworkConfig>) -> Seq<Network> {
    Seq::new(networks.len(), |i: int| networks[i]@)
}

impl NetworkConfig {
    pub fn new(ssid: &str) -> (r: Self)
        ensures
            r@ == Network::named(ssid@),
    {
        let r = NetworkConfig {
            ssid: text::text(ssid),
            password: None,
            hints: NetworkConfigHints::new(),
            roaming: true,
            roaming_threshold: DEFAULT_ROAM_THRESHOLD_DBM,
            switch_ssid_lower_than_dbm: DEFAULT_SWITCH_SSID_LOWER_THAN_DBM,
            wowlan: false,
            hidden: false,
            eap: None,
            sae_pwe: SaePwe::Auto,
            sae_password_id: None,
            ocv: false,
            ext_key_id: false,
        };
        assert(r@ =~= Network::named(ssid@));
        r
    }

    pub fn set_password(&mut self, password: &str) -> (r: &mut Self)
        ensures
            r@ == (Network { password: Some(password@), ..old(self)@ }),
            *final(self) == *final(r),
    {
        self.password = Some(text::text(password));
        self
    }

    /// Attach user-provided hints (e.g. last-known BSS information or just
    /// frequencies) used to speed up the first connection attempt. Complete
    /// hints enable the scan-free path; partial hints enable a best-effort
    /// quick scan with the normal scan flow as fallback.
    pub fn set_hints(&mut self, hints: NetworkConfigHints) -> (r: &mut Self)
        ensures
            r@ == (Network { hints: hints@, ..old(self)@ }),
            *final(self) == *final(r),
    {
        self.hints = hints;
        self
    }

    /// Enable (or disable) Wake-on-WLAN for this network. WoWLAN is off by
    /// default; enabling it arms the wiphy's supported `Disconnect` /
    /// `GtkRekeyFailure` triggers while connected.
    pub fn set_wowlan(&mut self, enabled: bool) -> (r: &mut Self)
        ensures
            r@ == (Network { wowlan: enabled, ..old(self)@ }),
            *final(self) == *final(r),
    {
        self.wowlan = enabled;
        self
    }

    /// Mark this network hidden so the client probes for it with an
    /// SSID-specific probe request.
    pub fn set_hidden(&mut self, hidden: bool) -> (r: &mut Self)
        ensures
            r@ == (Network { hidden, ..old(self)@ }),
            *final(self) == *final(r),
    {
        self.hidden = hidden;
        self
    }

    /// Attach EAP credentials to this network (802.1X).
    pub fn set_eap(&mut self, eap: EapConfig) -> (r: &mut Self)
        ensures
            r@ == (Network { eap: Some(eap@), ..old(self)@ }),
            *final(self) == *final(r),
    {
        self.eap = Some(eap);
        self
    }

    /// Set the optional SAE password identifier (WPA3-Personal).
    pub fn set_sae_password_id(&mut self, id: Option<&str>) -> (r: &mut Self)
        ensures
            r@ == (Network {
                sae_password_id: match id {
                    Some(s) => Some(s@),
                    None => None,
                },
                ..old(self)@
            }),
            *final(self) == *final(r),
    {
        self.sae_password_id = match id {
            Some(s) => Some(text::text(s)),
            None => None,
        };
        self
    }

    /// Enable or disable Operating Channel Validation (OCV).
    pub fn set_ocv(&mut self, enabled: bool) -> (r: &mut Self)
        ensures
            r@ == (Network { ocv: enabled, ..old(self)@ }),
            *final(self) == *final(r),
    {
        self.ocv = enabled;
        self
    }

    /// Enable or disable Extended Key ID.
    pub fn set_ext_key_id(&mut self, enabled: bool) -> (r: &mut Self)
        ensures
            r@ == (Network { ext_key_id: enabled, ..old(self)@ }),
            *final(self) == *final(r),
    {
        self.ext_key_id = enabled;
        self
    }

    /// Whether a cross-SSID roam may land on a BSS advertising `security`.
    pub fn can_roam_to_security(&self, security: SecurityType) -> (r: bool)
        ensures
            r == match security {
                SecurityType::Unsupported => false,
                SecurityType::Open => self.password is None && self.eap is None,
                _ => true,
            },
    {
        match security {
            SecurityType::Unsupported => false,
            SecurityType::Open => self.password.is_none() && self.eap.is_none(),
            _ => true,
        }
    }

    /// Another value of the same configuration.
    pub fn copy(&self) -> (r: Self)
        ensures
            r@ == self@,
    {
        let r = NetworkConfig {
            ssid: copy_text(&self.ssid),
            password: copy_opt_text(&self.password),
            hints: self.hints.copy(),
            roaming: self.roaming,
            roaming_threshold: self.roaming_threshold,
            switch_ssid_lower_than_dbm: self.switch_ssid_lower_than_dbm,
            wowlan: self.wowlan,
            hidden: self.hidden,
            eap: match &self.eap {
                Some(e) => Some(e.copy()),
                None => None,
            },
            sae_pwe: self.sae_pwe,
            sae_password_id: copy_opt_text(&self.sae_password_id),
            ocv: self.ocv,
            ext_key_id: self.ext_key_id,
        };
        assert(r@ =~= self@);
        r
    }

    /// Whether two configurations say the same.
    pub fn same(&self, other: &Self) -> (r: bool)
        ensures
            r == (self@ == other@),
    {
        let same_eap = match (&self.eap, &other.eap) {
            (Some(a), Some(b)) => a.same(b),
            (None, None) => true,
            _ => false,
        };
        same_eap && text::same_text(&self.ssid, &other.ssid) && same_opt_text(
            &self.password,
            &other.password,
        ) && self.hints.same(&other.hints) && self.roaming == other.roaming
            && self.roaming_threshold == other.roaming_threshold && self.switch_ssid_lower_than_dbm
            == other.switch_ssid_lower_than_dbm && self.wowlan == other.wowlan && self.hidden
            == other.hidden && self.sae_pwe == other.sae_pwe && same_opt_text(
            &self.sae_password_id,
            &other.sae_password_id,
        ) && self.ocv == other.ocv && self.ext_key_id == other.ext_key_id
    }
}

/// Whether two network lists say the same.
pub fn same_networks(a: &Vec<NetworkConfig>, b: &Vec<NetworkConfig>) -> (r: bool)
    ensures
        r == (network_views(a@) == network_views(b@)),
{
    if a.len() != b.len() {
        assert(network_views(a@).len() != network_views(b@).len());
        return false;
    }
    let mut i: usize = 0;
    while i < a.len()
        invariant
            i <= a@.len(),
            a@.len() == b@.len(),
            forall|j: int| 0 <= j < i ==> (#[trigger] a@[j])@ == b@[j]@,
        decreases a@.len() - i,
    {
        if !a[i].same(&b[i]) {
            assert(network_views(a@)[i as int] != network_views(b@)[i as int]);
            return false;
        }
        i = i + 1;
    }
    assert(network_views(a@) =~= network_views(b@));
    true
}

/// WiFi connection configuration of one interface.
///
/// Create one `WifiConfig` per wifi-phy interface so a single client manages
/// every interface in the network namespace.
#[derive(Debug, Clone)]
#[non_exhaustive]
pub struct WifiConfig {
    pub iface_name: String,
    /// Networks to scan for and connect to. A single scan schedule probes for
    /// all of them; the strongest matching BSS wins and its network's
    /// passphrase is used for authentication. Roaming is configured per
    /// network (see [`NetworkConfig::roaming`]).
    pub networks: Vec<NetworkConfig>,
}

/// The texts of string slices.
pub open spec fn str_views(list: Seq<&str>) -> Seq<Seq<char>> {
    Seq::new(list.len(), |i: int| list[i]@)
}

/// The SSIDs of networks.
pub open spec fn ssids_of(networks: Seq<Network>) -> Seq<Seq<char>> {
    Seq::new(networks.len(), |i: int| networks[i].ssid)
}

/// The SSIDs of the hidden ones among networks, in order.
pub open spec fn hidden_of(networks: Seq<Network>) -> Seq<Seq<char>>
    decreases networks.len(),
{
    if networks.len() == 0 {
        Seq::empty()
    } else if networks.last().hidden {
        hidden_of(networks.drop_last()).push(networks.last().ssid)
    } else {
        hidden_of(networks.drop_last())
    }
}

impl WifiConfig {
    /// What the configured networks say.
    pub open spec fn nets(self) -> Seq<Network> {
        network_views(self.networks@)
    }

    /// Create a config with no networks yet on `iface_name`. Add networks
    /// with [`add_network`](Self::add_network) so one scan schedule checks
    /// all of them.
    pub fn new(iface_name: &str) -> (r: Self)
        ensures
            r.iface_name@ == iface_name@,
            r.networks@.len() == 0,
    {
        WifiConfig { iface_name: text::text(iface_name), networks: Vec::new() }
    }

    /// Add a network to scan for and connect to.
    ///
    /// Note: each network adds one SSID match set to the firmware scheduled
    /// scan (PNO); drivers with a small `max_sched_scan_match_sets` may
    /// reject a long list, in which case the client falls back to host-side
    /// scans.
    pub fn add_network(&mut self, ssid: &str, password: Option<&str>) -> (r: &mut Self)
        ensures
            r.iface_name == old(self).iface_name,
            r.nets() == old(self).nets().push(
                Network {
                    password: match password {
                        Some(p) => Some(p@),
                        None => None,
                    },
                    ..Network::named(ssid@)
                },
            ),
            *final(self) == *final(r),
    {
        let mut network = NetworkConfig::new(ssid);
        if let Some(password) = password {
            network.password = Some(text::text(password));
        }
        let ghost before = self.nets();
        let ghost added = network@;
        self.networks.push(network);
        assert(self.nets() =~= before.push(added));
        self
    }

    /// All configured SSIDs (for PNO match sets and logging; probe requests
    /// use [`Self::hidden_ssids`] plus a wildcard entry).
    pub fn ssids(&self) -> (r: Vec<&str>)
        ensures
            str_views(r@) == ssids_of(self.nets()),
    {
        let mut r: Vec<&str> = Vec::new();
        let mut i: usize = 0;
        while i < self.networks.len()
            invariant
                i <= self.networks@.len(),
                r@.len() == i,
                forall|j: int| 0 <= j < i ==> (#[trigger] r@[j])@ == self.networks@[j].ssid@,
            decreases self.networks@.len() - i,
        {
            r.push(self.networks[i].ssid.as_str());
            i = i + 1;
        }
        assert(str_views(r@) =~= ssids_of(self.nets()));
        r
    }

    /// SSIDs of hidden networks, probed with directed probe requests. Visible
    /// networks are discovered by the wildcard scan entry that every scan
    /// carries.
    pub fn hidden_ssids(&self) -> (r: Vec<&str>)
        ensures
            str_views(r@) == hidden_of(self.nets()),
    {
        let mut r: Vec<&str> = Vec::new();
        let mut i: usize = 0;
        assert(str_views(r@) =~= hidden_of(self.nets().take(0)));
        while i < self.networks.len()
            invariant
                i <= self.networks@.len(),
                str_views(r@) == hidden_of(self.nets().take(i as int)),
            decreases self.networks@.len() - i,
        {
            let ghost before = r@;
            let ghost head = self.nets().take(i + 1);
            assert(head.drop_last() =~= self.nets().take(i as int));
            assert(head.last() == self.networks@[i as int]@);
            if self.networks[i].hidden {
                r.push(self.networks[i].ssid.as_str());
                assert(str_views(r@) =~= str_views(before).push(self.networks@[i as int].ssid@));
            }
            i = i + 1;
        }
        assert(self.nets().take(i as int) =~= self.nets());
        r
    }
}

/// What a network is configured with unless something else is said: it may roam
/// below -70 dBm, leaves its SSID below -80 dBm, and lets the AP choose how the
/// password element is derived; everything else is off or absent.
pub proof fn law_network_defaults(ssid: Seq<char>)
    ensures
        ({
            let n = Network::named(ssid);
            &&& n.ssid == ssid
            &&& n.roaming
            &&& n.roaming_threshold == -70
            &&& n.switch_ssid_lower_than_dbm == -80
            &&& n.sae_pwe == SaePwe::Auto
            &&& n.password is None && n.eap is None && n.sae_password_id is None
            &&& !n.wowlan && !n.hidden && !n.ocv && !n.ext_key_id
            &&& !n.hints.scan_free()
        }),
{
}

} // verus!
