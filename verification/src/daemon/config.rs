//! Daemon-level configuration.
//!
//! It targets small systems without a network manager: full static or full
//! dynamic (DHCP).

use vstd::prelude::*;

use crate::config;
use crate::config::{
    Eap, EapConfig, Network, NetworkConfig, SaePwe, WifiConfig, DEFAULT_ROAM_THRESHOLD_DBM,
};
use crate::error::{ErrorKind, WifiError};
use crate::text;

verus! {

/// Top-level daemon configuration.
#[derive(Debug, Clone)]
pub struct ShuliConfig {
    pub version: u32,
    pub wifis: Vec<WifiEntry>,
    pub ethernets: Vec<EthernetEntry>,
}

/// SAE PWE derivation mode as configured.
#[derive(Debug, Clone, Copy, PartialEq, Eq, Structural)]
pub enum SaePweConfig {
    /// H2E first, hunting-and-pecking fallback when the AP rejects it.
    Auto,
    /// Hash-to-element only.
    H2e,
    /// Hunting-and-pecking only (RFC 7664).
    Hnp,
}

impl Default for SaePweConfig {
    fn default() -> (r: Self)
        ensures
            r == SaePweConfig::Auto,
    {
        SaePweConfig::Auto
    }
}

impl SaePweConfig {
    /// The mode that the client uses.
    pub open spec fn mode(self) -> SaePwe {
        match self {
            SaePweConfig::Auto => SaePwe::Auto,
            SaePweConfig::H2e => SaePwe::H2E,
            SaePweConfig::Hnp => SaePwe::HnP,
        }
    }

    /// The mode that the client uses.
    pub fn to_lib(self) -> (r: SaePwe)
        ensures
            r == self.mode(),
    {
        match self {
            SaePweConfig::Auto => SaePwe::Auto,
            SaePweConfig::H2e => SaePwe::H2E,
            SaePweConfig::Hnp => SaePwe::HnP,
        }
    }
}

/// A single WiFi network entry.
#[derive(Debug, Clone)]
pub struct WifiEntry {
    pub ssid: String,
    pub password: Option<String>,
    /// The network does not put its SSID in beacons.
    pub hidden: bool,
    /// The network is marked as a favourite. The client does not act on it.
    pub prefered: bool,
    /// Signal-triggered roaming while connected to this SSID: `false` disables
    /// it (BTM / 802.11v Requests are still honoured).
    pub roaming: bool,
    /// Signal level (dBm) below which the client scans for roam candidates
    /// while connected.
    pub roaming_threshold: i32,
    /// Signal level (dBm) below which a roam scan also considers other
    /// configured SSIDs.
    pub switch_ssid_lower_than_dbm: i32,
    /// Wake-on-WLAN (WoWLAN): arm the wiphy's Disconnect / GTK-rekey failure
    /// triggers while connected, so the device can wake the host on suspend.
    pub wowlan: bool,
    /// EAP credentials for WPA2-Enterprise / 802.1X networks (EAP-TLS). `None`
    /// for PSK/SAE/open networks.
    pub eap: Option<EapEntry>,
    /// SAE PWE derivation for WPA3-Personal networks.
    pub sae_pwe: SaePweConfig,
    /// SAE password identifier for WPA3-Personal networks.
    pub sae_password_id: Option<String>,
    /// Operating Channel Validation.
    pub ocv: bool,
    /// Extended Key ID.
    pub ext_key_id: bool,
    /// Interface name to bind to. `"any"` (or absent) picks the first
    /// available wifi interface.
    pub interface: Option<String>,
    pub dns: Option<DnsConfig>,
    pub ipv4: Option<IpConfig>,
    pub ipv6: Option<IpConfig>,
}

/// EAP credential settings as configured.
#[derive(Debug, Clone)]
pub struct EapEntry {
    pub identity: String,
    pub ca_cert: Option<String>,
    pub client_cert: Option<String>,
    pub client_key: Option<String>,
    pub server_name: Option<String>,
}

/// A wired 802.1X port.
#[derive(Debug, Clone)]
pub struct EthernetEntry {
    pub name: String,
    pub eap: EapEntry,
    pub dns: Option<DnsConfig>,
    pub ipv4: Option<IpConfig>,
    pub ipv6: Option<IpConfig>,
}

#[derive(Debug, Clone)]
pub struct DnsConfig {
    pub nameservers: Vec<String>,
    pub searches: Vec<String>,
}

#[derive(Debug, Clone)]
pub struct IpConfig {
    /// `true` = DHCP / auto-config, `false` = full static.
    pub auto: bool,
    pub address: Vec<IpAddress>,
    pub gateway: Option<String>,
}

#[derive(Debug, Clone)]
pub struct IpAddress {
    pub ip: String,
    pub prefix_length: u8,
}

/// What a DNS configuration says.
#[verifier::ext_equal]
pub struct Dns {
    pub nameservers: Seq<Seq<char>>,
    pub searches: Seq<Seq<char>>,
}

/// What an IP configuration says: whether it is automatic, the addresses with
/// their prefix lengths, and the gateway.
#[verifier::ext_equal]
pub struct Ip {
    pub auto: bool,
    pub address: Seq<(Seq<char>, u8)>,
    pub gateway: Option<Seq<char>>,
}

/// What a network entry says.
#[verifier::ext_equal]
pub struct Entry {
    pub ssid: Seq<char>,
    pub password: Option<Seq<char>>,
    pub hidden: bool,
    pub prefered: bool,
    pub roaming: bool,
    pub roaming_threshold: i32,
    pub switch_ssid_lower_than_dbm: i32,
    pub wowlan: bool,
    pub eap: Option<Eap>,
    pub sae_pwe: SaePweConfig,
    pub sae_password_id: Option<Seq<char>>,
    pub ocv: bool,
    pub ext_key_id: bool,
    pub interface: Option<Seq<char>>,
    pub dns: Option<Dns>,
    pub ipv4: Option<Ip>,
    pub ipv6: Option<Ip>,
}

/// Texts as characters.
pub open spec fn text_views(texts: Seq<String>) -> Seq<Seq<char>> {
    Seq::new(texts.len(), |i: int| texts[i]@)
}

/// What a list of addresses says.
pub open spec fn address_views(list: Seq<IpAddress>) -> Seq<(Seq<char>, u8)> {
    Seq::new(list.len(), |i: int| (list[i].ip@, list[i].prefix_length))
}

impl View for DnsConfig {
    type V = Dns;

    open spec fn view(&self) -> Dns {
        Dns { nameservers: text_views(self.nameservers@), searches: text_views(self.searches@) }
    }
}

impl View for IpConfig {
    type V = Ip;

    open spec fn view(&self) -> Ip {
        Ip {
            auto: self.auto,
            address: address_views(self.address@),
            gateway: config::opt_text(self.gateway),
        }
    }
}

impl View for EapEntry {
    type V = Eap;

    open spec fn view(&self) -> Eap {
        Eap {
            identity: self.identity@,
            ca_cert: config::opt_text(self.ca_cert),
            client_cert: config::opt_text(self.client_cert),
            client_key: config::opt_text(self.client_key),
            server_name: config::opt_text(self.server_name),
        }
    }
}

/// The view of an optional DNS configuration.
pub open spec fn opt_dns(d: Option<DnsConfig>) -> Option<Dns> {
    match d {
        Some(d) => Some(d@),
        None => None,
    }
}

/// The view of an optional IP configuration.
pub open spec fn opt_ip(c: Option<IpConfig>) -> Option<Ip> {
    match c {
        Some(c) => Some(c@),
        None => None,
    }
}

/// The view of optional EAP credential settings.
pub open spec fn opt_eap(e: Option<EapEntry>) -> Option<Eap> {
    match e {
        Some(e) => Some(e@),
        None => None,
    }
}

impl View for WifiEntry {
    type V = Entry;

    open spec fn view(&self) -> Entry {
        Entry {
            ssid: self.ssid@,
            password: config::opt_text(self.password),
            hidden: self.hidden,
            prefered: self.prefered,
            roaming: self.roaming,
            roaming_threshold: self.roaming_threshold,
            switch_ssid_lower_than_dbm: self.switch_ssid_lower_than_dbm,
            wowlan: self.wowlan,
            eap: opt_eap(self.eap),
            sae_pwe: self.sae_pwe,
            sae_password_id: config::opt_text(self.sae_password_id),
            ocv: self.ocv,
            ext_key_id: self.ext_key_id,
            interface: config::opt_text(self.interface),
            dns: opt_dns(self.dns),
            ipv4: opt_ip(self.ipv4),
            ipv6: opt_ip(self.ipv6),
        }
    }
}

/// Another value of the same texts.
fn copy_texts(v: &Vec<String>) -> (r: Vec<String>)
    ensures
        text_views(r@) == text_views(v@),
{
    let mut r: Vec<String> = Vec::new();
    let mut i: usize = 0;
    while i < v.len()
        invariant
            i <= v@.len(),
            r@.len() == i,
            forall|k: int| 0 <= k < i ==> (#[trigger] r@[k])@ == v@[k]@,
        decreases v.len() - i,
    {
        r.push(config::copy_text(&v[i]));
        i += 1;
    }
    assert(text_views(r@) =~= text_views(v@));
    r
}

impl DnsConfig {
    /// Another value of the same configuration.
    pub fn copy(&self) -> (r: Self)
        ensures
            r@ == self@,
    {
        DnsConfig {
            nameservers: copy_texts(&self.nameservers),
            searches: copy_texts(&self.searches),
        }
    }
}

impl IpConfig {
    /// Another value of the same configuration.
    pub fn copy(&self) -> (r: Self)
        ensures
            r@ == self@,
    {
        let mut address: Vec<IpAddress> = Vec::new();
        let mut i: usize = 0;
        while i < self.address.len()
            invariant
                i <= self.address@.len(),
                address@.len() == i,
                forall|k: int|
                    0 <= k < i ==> {
                        &&& (#[trigger] address@[k]).ip@ == self.address@[k].ip@
                        &&& address@[k].prefix_length == self.address@[k].prefix_length
                    },
            decreases self.address.len() - i,
        {
            address.push(
                IpAddress {
                    ip: config::copy_text(&self.address[i].ip),
                    prefix_length: self.address[i].prefix_length,
                },
            );
            i += 1;
        }
        assert(address_views(address@) =~= address_views(self.address@));
        IpConfig { auto: self.auto, address, gateway: config::copy_opt_text(&self.gateway) }
    }
}

impl EapEntry {
    /// Another value of the same settings.
    pub fn copy(&self) -> (r: Self)
        ensures
            r@ == self@,
    {
        EapEntry {
            identity: config::copy_text(&self.identity),
            ca_cert: config::copy_opt_text(&self.ca_cert),
            client_cert: config::copy_opt_text(&self.client_cert),
            client_key: config::copy_opt_text(&self.client_key),
            server_name: config::copy_opt_text(&self.server_name),
        }
    }

    /// The credentials that the client uses.
    pub fn to_lib(&self) -> (r: EapConfig)
        ensures
            r@ == self@,
    {
        EapConfig {
            identity: config::copy_text(&self.identity),
            ca_cert: config::copy_opt_text(&self.ca_cert),
            client_cert: config::copy_opt_text(&self.client_cert),
            client_key: config::copy_opt_text(&self.client_key),
            server_name: config::copy_opt_text(&self.server_name),
        }
    }
}

/// Another value of the same optional DNS configuration.
pub fn copy_opt_dns(d: &Option<DnsConfig>) -> (r: Option<DnsConfig>)
    ensures
        opt_dns(r) == opt_dns(*d),
{
    match d {
        Some(d) => Some(d.copy()),
        None => None,
    }
}

/// Another value of the same optional IP configuration.
fn copy_opt_ip(c: &Option<IpConfig>) -> (r: Option<IpConfig>)
    ensures
        opt_ip(r) == opt_ip(*c),
{
    match c {
        Some(c) => Some(c.copy()),
        None => None,
    }
}

impl Entry {
    /// The interface that the entry binds to; `any_iface` stands for an absent
    /// one and for `any`.
    pub open spec fn bound_to(self, any_iface: Seq<char>) -> Seq<char> {
        match self.interface {
            Some(name) if name != "any"@ => name,
            _ => any_iface,
        }
    }

    /// The network that the client connects to.
    pub open spec fn network(self) -> Network {
        Network {
            password: self.password,
            hidden: self.hidden,
            roaming: self.roaming,
            roaming_threshold: self.roaming_threshold,
            switch_ssid_lower_than_dbm: self.switch_ssid_lower_than_dbm,
            wowlan: self.wowlan,
            eap: self.eap,
            sae_pwe: self.sae_pwe.mode(),
            sae_password_id: self.sae_password_id,
            ocv: self.ocv,
            ext_key_id: self.ext_key_id,
            ..Network::named(self.ssid)
        }
    }
}

impl WifiEntry {
    /// Another value of the same entry.
    pub fn copy(&self) -> (r: Self)
        ensures
            r@ == self@,
    {
        let r = WifiEntry {
            ssid: config::copy_text(&self.ssid),
            password: config::copy_opt_text(&self.password),
            hidden: self.hidden,
            prefered: self.prefered,
            roaming: self.roaming,
            roaming_threshold: self.roaming_threshold,
            switch_ssid_lower_than_dbm: self.switch_ssid_lower_than_dbm,
            wowlan: self.wowlan,
            eap: match &self.eap {
                Some(e) => Some(e.copy()),
                None => None,
            },
            sae_pwe: self.sae_pwe,
            sae_password_id: config::copy_opt_text(&self.sae_password_id),
            ocv: self.ocv,
            ext_key_id: self.ext_key_id,
            interface: config::copy_opt_text(&self.interface),
            dns: copy_opt_dns(&self.dns),
            ipv4: copy_opt_ip(&self.ipv4),
            ipv6: copy_opt_ip(&self.ipv6),
        };
        assert(r@ =~= self@);
        r
    }

    /// Whether the entry binds to whatever wifi interface there is.
    pub fn binds_any(&self) -> (r: bool)
        ensures
            r == (self@.interface is None || self@.interface == Some("any"@)),
    {
        match &self.interface {
            None => true,
            Some(name) => {
                let any = text::text("any");
                text::same_text(name, &any)
            },
        }
    }

    /// The network that the client connects to. It keeps the entry's own
    /// roaming policy.
    fn to_network(&self) -> (r: NetworkConfig)
        ensures
            r@ == self@.network(),
    {
        let mut network = NetworkConfig::new(self.ssid.as_str());
        network.password = config::copy_opt_text(&self.password);
        network.hidden = self.hidden;
        network.roaming = self.roaming;
        network.roaming_threshold = self.roaming_threshold;
        network.switch_ssid_lower_than_dbm = self.switch_ssid_lower_than_dbm;
        network.wowlan = self.wowlan;
        network.eap = match &self.eap {
            Some(e) => Some(e.to_lib()),
            None => None,
        };
        network.sae_pwe = self.sae_pwe.to_lib();
        network.sae_password_id = config::copy_opt_text(&self.sae_password_id);
        network.ocv = self.ocv;
        network.ext_key_id = self.ext_key_id;
        assert(network@ =~= self@.network());
        network
    }
}

/// What a list of entries says.
pub open spec fn entry_views(entries: Seq<WifiEntry>) -> Seq<Entry> {
    Seq::new(entries.len(), |i: int| entries[i]@)
}

/// The networks of entries.
pub open spec fn networks_of(entries: Seq<Entry>) -> Seq<Network> {
    Seq::new(entries.len(), |i: int| entries[i].network())
}

impl ShuliConfig {
    /// Convert the configured networks bound to `iface_name` (one interface
    /// can carry several SSIDs) into the client's configuration.
    pub fn wifi_config_for_entries(iface_name: &str, entries: &[WifiEntry]) -> (r: WifiConfig)
        ensures
            r.iface_name@ == iface_name@,
            r.nets() == networks_of(entry_views(entries@)),
    {
        let mut wifi = WifiConfig::new(iface_name);
        let mut i: usize = 0;
        while i < entries.len()
            invariant
                i <= entries@.len(),
                wifi.iface_name@ == iface_name@,
                wifi.networks@.len() == i,
                forall|k: int|
                    0 <= k < i ==> (#[trigger] wifi.networks@[k])@ == entries@[k]@.network(),
            decreases entries.len() - i,
        {
            wifi.networks.push(entries[i].to_network());
            i += 1;
        }
        assert(wifi.nets() =~= networks_of(entry_views(entries@)));
        wifi
    }

    /// Check that there is anything to connect to.
    pub fn check(&self) -> (r: Result<(), WifiError>)
        ensures
            if self.wifis@.len() == 0 && self.ethernets@.len() == 0 {
                r matches Err(e) && e.is(
                    ErrorKind::InvalidConfig,
                    "no wifis or ethernets in config"@,
                )
            } else {
                r is Ok
            },
    {
        if self.wifis.len() == 0 && self.ethernets.len() == 0 {
            return Err(WifiError::new(ErrorKind::InvalidConfig, "no wifis or ethernets in config"));
        }
        Ok(())
    }

    /// Whether any entry binds to whatever wifi interface there is.
    pub fn needs_any(&self) -> (r: bool)
        ensures
            r == exists|i: int|
                0 <= i < self.wifis@.len() && {
                    let bound = (#[trigger] self.wifis@[i])@.interface;
                    bound is None || bound == Some("any"@)
                },
    {
        let mut i: usize = 0;
        while i < self.wifis.len()
            invariant
                i <= self.wifis@.len(),
                forall|k: int|
                    0 <= k < i ==> {
                        let bound = (#[trigger] self.wifis@[k])@.interface;
                        bound is Some && bound != Some("any"@)
                    },
            decreases self.wifis.len() - i,
        {
            if self.wifis[i].binds_any() {
                return true;
            }
            i += 1;
        }
        false
    }
}

/// Signal-triggered roaming is on unless configured otherwise.
pub fn default_roaming() -> (r: bool)
    ensures
        r,
{
    true
}

/// The roam threshold unless configured otherwise.
pub fn default_roam_threshold() -> (r: i32)
    ensures
        r == DEFAULT_ROAM_THRESHOLD_DBM,
        r == -70,
{
    DEFAULT_ROAM_THRESHOLD_DBM
}

/// The interface to bind to: the configured one, or the first wifi interface
/// there is where none is configured, or `any`.
pub fn resolve_iface_name(interface: Option<&String>, wifi_ifaces: &Vec<String>) -> (r: Result<
    String,
    WifiError,
>)
    ensures
        match interface {
            Some(name) if name@ != "any"@ => r matches Ok(n) && n@ == name@,
            _ => if wifi_ifaces@.len() > 0 {
                r matches Ok(n) && n@ == wifi_ifaces@[0]@
            } else {
                r matches Err(e) && e.is(ErrorKind::InterfaceNotFound, "no wifi interface found"@)
            },
        },
{
    if let Some(name) = interface {
        let any = text::text("any");
        if !text::same_text(name, &any) {
            return Ok(config::copy_text(name));
        }
    }
    if wifi_ifaces.len() > 0 {
        Ok(config::copy_text(&wifi_ifaces[0]))
    } else {
        Err(WifiError::new(ErrorKind::InterfaceNotFound, "no wifi interface found"))
    }
}

/// The interfaces that entries bind to, each once, in the order in which they
/// are first seen.
pub open spec fn bound_ifaces(entries: Seq<Entry>, any_iface: Seq<char>) -> Seq<Seq<char>>
    decreases entries.len(),
{
    if entries.len() == 0 {
        Seq::empty()
    } else {
        let before = bound_ifaces(entries.drop_last(), any_iface);
        let iface = entries.last().bound_to(any_iface);
        if before.contains(iface) {
            before
        } else {
            before.push(iface)
        }
    }
}

/// The entries that bind to an interface, in their order.
pub open spec fn entries_on(entries: Seq<Entry>, any_iface: Seq<char>, iface: Seq<char>) -> Seq<
    Entry,
>
    decreases entries.len(),
{
    if entries.len() == 0 {
        Seq::empty()
    } else {
        let before = entries_on(entries.drop_last(), any_iface, iface);
        if entries.last().bound_to(any_iface) == iface {
            before.push(entries.last())
        } else {
            before
        }
    }
}

/// Whether groups are the entries by interface.
pub open spec fn are_groups(
    groups: Seq<(String, Vec<WifiEntry>)>,
    entries: Seq<Entry>,
    any_iface: Seq<char>,
) -> bool {
    &&& groups.len() == bound_ifaces(entries, any_iface).len()
    &&& forall|i: int|
        0 <= i < groups.len() ==> {
            let iface = bound_ifaces(entries, any_iface)[i];
            &&& (#[trigger] groups[i]).0@ == iface
            &&& entry_views(groups[i].1@) == entries_on(entries, any_iface, iface)
        }
}

/// Group configured networks by their resolved interface: one configuration
/// per distinct interface. `any_iface` is the concrete NIC that `any` and
/// absent entries bind to.
pub fn group_by_interface(wifis: &[WifiEntry], any_iface: &str) -> (r: Vec<
    (String, Vec<WifiEntry>),
>)
    ensures
        are_groups(r@, entry_views(wifis@), any_iface@),
{
    let mut groups: Vec<(String, Vec<WifiEntry>)> = Vec::new();
    let ghost all = entry_views(wifis@);
    let mut i: usize = 0;
    while i < wifis.len()
        invariant
            i <= wifis@.len(),
            all == entry_views(wifis@),
            are_groups(groups@, all.take(i as int), any_iface@),
        decreases wifis.len() - i,
    {
        let iface = if wifis[i].binds_any() {
            text::text(any_iface)
        } else {
            match &wifis[i].interface {
                Some(name) => config::copy_text(name),
                None => text::text(any_iface),
            }
        };
        let ghost before = all.take(i as int);
        let ghost now = all.take(i + 1);
        let ghost names = bound_ifaces(before, any_iface@);
        let ghost old_groups = groups@;
        assert(now.drop_last() =~= before);
        assert(now.last() == wifis@[i as int]@);
        assert(iface@ == now.last().bound_to(any_iface@));
        let mut g: usize = 0;
        while g < groups.len() && !text::same_text(&groups[g].0, &iface)
            invariant
                g <= groups@.len(),
                groups@ == old_groups,
                forall|k: int| 0 <= k < g ==> (#[trigger] groups@[k]).0@ != iface@,
            decreases groups.len() - g,
        {
            g += 1;
        }
        if g < groups.len() {
            let entry = wifis[i].copy();
            groups[g].1.push(entry);
            proof {
                assert(names[g as int] == iface@);
                lemma_bound_once(before, any_iface@);
                assert(entry_views(groups@[g as int].1@) =~= entry_views(
                    old_groups[g as int].1@,
                ).push(now.last()));
                assert forall|k: int| 0 <= k < groups@.len() implies ({
                    let name = bound_ifaces(now, any_iface@)[k];
                    &&& (#[trigger] groups@[k]).0@ == name
                    &&& entry_views(groups@[k].1@) == entries_on(now, any_iface@, name)
                }) by {
                    assert(old_groups[k].0@ == names[k]);
                    if k != g {
                        assert(names[k] != names[g as int]);
                        assert(groups@[k] == old_groups[k]);
                    }
                }
            }
        } else {
            let mut entries: Vec<WifiEntry> = Vec::new();
            entries.push(wifis[i].copy());
            let ghost added = entries@;
            groups.push((iface, entries));
            proof {
                assert forall|k: int| 0 <= k < names.len() implies names[k] != iface@ by {
                    assert(old_groups[k].0@ == names[k]);
                }
                assert(!names.contains(iface@));
                lemma_none_bound(before, any_iface@, iface@);
                assert(entry_views(added) =~= seq![now.last()]);
                assert(Seq::<Entry>::empty().push(now.last()) =~= seq![now.last()]);
                assert forall|k: int| 0 <= k < groups@.len() implies ({
                    let name = bound_ifaces(now, any_iface@)[k];
                    &&& (#[trigger] groups@[k]).0@ == name
                    &&& entry_views(groups@[k].1@) == entries_on(now, any_iface@, name)
                }) by {
                    if k < names.len() {
                        assert(groups@[k] == old_groups[k]);
                        assert(old_groups[k].0@ == names[k]);
                    }
                }
            }
        }
        i += 1;
    }
    assert(all.take(i as int) =~= all);
    groups
}

/// No interface is bound to twice in the list of bound interfaces.
proof fn lemma_bound_once(entries: Seq<Entry>, any_iface: Seq<char>)
    ensures
        ({
            let names = bound_ifaces(entries, any_iface);
            forall|i: int, k: int| 0 <= i < k < names.len() ==> names[i] != names[k]
        }),
    decreases entries.len(),
{
    if entries.len() > 0 {
        lemma_bound_once(entries.drop_last(), any_iface);
        let before = bound_ifaces(entries.drop_last(), any_iface);
        let names = bound_ifaces(entries, any_iface);
        assert forall|i: int, k: int| 0 <= i < k < names.len() implies names[i] != names[k] by {
            assert(names[i] == before[i]);
            if k < before.len() {
                assert(names[k] == before[k]);
            }
        }
    }
}

/// No entry binds to an interface that is not in the list of bound interfaces.
proof fn lemma_none_bound(entries: Seq<Entry>, any_iface: Seq<char>, iface: Seq<char>)
    requires
        !bound_ifaces(entries, any_iface).contains(iface),
    ensures
        entries_on(entries, any_iface, iface) == Seq::<Entry>::empty(),
    decreases entries.len(),
{
    if entries.len() > 0 {
        let before = bound_ifaces(entries.drop_last(), any_iface);
        let last = entries.last().bound_to(any_iface);
        if before.contains(iface) {
            let k = choose|k: int| 0 <= k < before.len() && before[k] == iface;
            assert(bound_ifaces(entries, any_iface)[k] == iface);
        }
        if last == iface {
            if !before.contains(last) {
                assert(bound_ifaces(entries, any_iface)[before.len() as int] == iface);
            }
        }
        lemma_none_bound(entries.drop_last(), any_iface, iface);
    }
}

/// Every entry is in the group of the interface that it binds to, and in no
/// other; no interface has two groups.
pub proof fn law_groups_partition(
    groups: Seq<(String, Vec<WifiEntry>)>,
    entries: Seq<Entry>,
    any_iface: Seq<char>,
    i: int,
)
    requires
        are_groups(groups, entries, any_iface),
        0 <= i < entries.len(),
    ensures
        exists|g: int| 0 <= g < groups.len() && (#[trigger] groups[g]).0@ == entries[i].bound_to(
            any_iface,
        ) && entry_views(groups[g].1@).contains(entries[i]),
        forall|g: int|
            0 <= g < groups.len() && entry_views((#[trigger] groups[g]).1@).contains(entries[i])
                ==> groups[g].0@ == entries[i].bound_to(any_iface),
        forall|g: int, h: int|
            0 <= g < h < groups.len() ==> (#[trigger] groups[g]).0@ != (#[trigger] groups[h]).0@,
{
    let iface = entries[i].bound_to(any_iface);
    lemma_bound_once(entries, any_iface);
    lemma_bound_listed(entries, any_iface, i);
    let names = bound_ifaces(entries, any_iface);
    let g = choose|g: int| 0 <= g < names.len() && names[g] == iface;
    assert(groups[g].0@ == iface);
    assert forall|g: int|
        0 <= g < groups.len() && entry_views((#[trigger] groups[g]).1@).contains(
            entries[i],
        ) implies groups[g].0@ == iface by {
        lemma_only_bound(entries, any_iface, names[g], entries[i]);
    }
    assert forall|g: int, h: int| 0 <= g < h < groups.len() implies (#[trigger] groups[g]).0@ != (
    #[trigger] groups[h]).0@ by {
        assert(names[g] != names[h]);
    }
}

/// The interface of an entry is listed, and the entry is on it.
proof fn lemma_bound_listed(entries: Seq<Entry>, any_iface: Seq<char>, i: int)
    requires
        0 <= i < entries.len(),
    ensures
        bound_ifaces(entries, any_iface).contains(entries[i].bound_to(any_iface)),
        entries_on(entries, any_iface, entries[i].bound_to(any_iface)).contains(entries[i]),
    decreases entries.len(),
{
    let iface = entries[i].bound_to(any_iface);
    let before = bound_ifaces(entries.drop_last(), any_iface);
    let on = entries_on(entries.drop_last(), any_iface, iface);
    if i < entries.len() - 1 {
        lemma_bound_listed(entries.drop_last(), any_iface, i);
        let k = choose|k: int| 0 <= k < before.len() && before[k] == iface;
        assert(bound_ifaces(entries, any_iface)[k] == iface);
        let m = choose|m: int| 0 <= m < on.len() && on[m] == entries[i];
        assert(entries_on(entries, any_iface, iface)[m] == entries[i]);
    } else {
        if !before.contains(iface) {
            assert(bound_ifaces(entries, any_iface)[before.len() as int] == iface);
        }
        assert(entries_on(entries, any_iface, iface)[on.len() as int] == entries[i]);
    }
}

/// Only entries that bind to an interface are on it.
proof fn lemma_only_bound(entries: Seq<Entry>, any_iface: Seq<char>, iface: Seq<char>, e: Entry)
    requires
        entries_on(entries, any_iface, iface).contains(e),
    ensures
        e.bound_to(any_iface) == iface,
    decreases entries.len(),
{
    let on = entries_on(entries, any_iface, iface);
    let k = choose|k: int| 0 <= k < on.len() && on[k] == e;
    if entries.len() > 0 {
        let before = entries_on(entries.drop_last(), any_iface, iface);
        if k < before.len() {
            assert(before[k] == e);
            lemma_only_bound(entries.drop_last(), any_iface, iface, e);
        }
    }
}

} // verus!
