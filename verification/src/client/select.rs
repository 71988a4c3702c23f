//! Which BSS of a scan to connect to.

use vstd::prelude::*;

use crate::bytes;
use crate::client::fast_transition::{element_octets, first_body, whole_element};
use crate::client::run::ScanOutcome;
use crate::config::NetworkConfig;
use crate::error::{ErrorKind, WifiError};
use crate::ieee80211::elements;
use crate::ieee80211::elements::{
    AKM_8021X, AKM_8021X_SHA256, AKM_FT_PSK, AKM_FT_SAE, AKM_FT_SAE_EXT_KEY, AKM_OWE, AKM_PSK,
    AKM_PSK_SHA256, AKM_SAE, AKM_SAE_EXT_KEY,
};
use crate::ieee80211::tlv;
use crate::scan::{BssInfo, MdieInfo, SecurityType};
use crate::text;

verus! {

/// The security mode that an AKM suite selector of an RSNE stands for.
pub open spec fn akm_security(akm: u32) -> SecurityType {
    if akm == AKM_OWE {
        SecurityType::Owe
    } else if akm == AKM_SAE {
        SecurityType::Sae
    } else if akm == AKM_SAE_EXT_KEY {
        SecurityType::SaeExtKey
    } else if akm == AKM_PSK {
        SecurityType::Wpa2Psk
    } else if akm == AKM_PSK_SHA256 {
        SecurityType::Wpa2PskSha256
    } else if akm == AKM_8021X {
        SecurityType::Wpa2Ent
    } else if akm == AKM_8021X_SHA256 {
        SecurityType::Wpa2EntSha256
    } else if akm == AKM_FT_SAE {
        SecurityType::FtSae
    } else if akm == AKM_FT_SAE_EXT_KEY {
        SecurityType::FtSaeExtKey
    } else if akm == AKM_FT_PSK {
        SecurityType::FtPsk
    } else {
        SecurityType::Unsupported
    }
}

/// The security mode that an AKM suite selector of an RSNE stands for.
pub fn security_of_akm(akm: u32) -> (r: SecurityType)
    ensures
        r == akm_security(akm),
{
    match akm {
        AKM_OWE => SecurityType::Owe,
        AKM_SAE => SecurityType::Sae,
        AKM_SAE_EXT_KEY => SecurityType::SaeExtKey,
        AKM_PSK => SecurityType::Wpa2Psk,
        AKM_PSK_SHA256 => SecurityType::Wpa2PskSha256,
        AKM_8021X => SecurityType::Wpa2Ent,
        AKM_8021X_SHA256 => SecurityType::Wpa2EntSha256,
        AKM_FT_SAE => SecurityType::FtSae,
        AKM_FT_SAE_EXT_KEY => SecurityType::FtSaeExtKey,
        AKM_FT_PSK => SecurityType::FtPsk,
        _ => SecurityType::Unsupported,
    }
}

/// The mode of the first supported AKM suite of a list.
pub open spec fn first_supported(akms: Seq<u32>) -> SecurityType
    decreases akms.len(),
{
    if akms.len() == 0 {
        SecurityType::Unsupported
    } else if akm_security(akms[0]) != SecurityType::Unsupported {
        akm_security(akms[0])
    } else {
        first_supported(akms.drop_first())
    }
}

/// The security mode of a BSS: that of the first supported AKM suite of its
/// RSNE. A BSS without an RSNE is open, unless its capability bits ask for
/// privacy (WEP or WPA1).
pub fn bss_security(akms: Option<&[u32]>, privacy: bool) -> (r: SecurityType)
    ensures
        r == match akms {
            Some(list) => first_supported(list@),
            None => if privacy {
                SecurityType::Unsupported
            } else {
                SecurityType::Open
            },
        },
{
    match akms {
        None => if privacy {
            SecurityType::Unsupported
        } else {
            SecurityType::Open
        },
        Some(list) => {
            let mut i: usize = 0;
            assert(list@.skip(0) =~= list@);
            while i < list.len()
                invariant
                    i <= list@.len(),
                    akms == Some(list),
                    first_supported(list@) == first_supported(list@.skip(i as int)),
                decreases list.len() - i,
            {
                assert(list@.skip(i as int).drop_first() =~= list@.skip(i + 1));
                let mode = security_of_akm(list[i]);
                if mode != SecurityType::Unsupported {
                    return mode;
                }
                i += 1;
            }
            SecurityType::Unsupported
        },
    }
}

/// Whether elements advertise BSS Transition Management (802.11v): bit 19 of
/// the Extended Capabilities element.
pub open spec fn has_btm(ies: Seq<u8>) -> bool {
    first_body(ies, 127) matches Some(body) && body.len() > 2 && body[2] & 0x08 != 0
}

/// Whether elements advertise Neighbor Reports (802.11k): bit 1 of the RM
/// Enabled Capabilities element.
pub open spec fn has_neighbor_report(ies: Seq<u8>) -> bool {
    first_body(ies, 70) matches Some(body) && body.len() > 0 && body[0] & 0x02 != 0
}

/// `wl_nl80211::ap_supports_btm`: whether elements advertise BSS Transition
/// Management.
#[verifier::external_body]
fn supports_btm(ies: &[u8]) -> (r: bool)
    ensures
        r == has_btm(ies@),
{
    wl_nl80211::ap_supports_btm(ies)
}

/// `wl_nl80211::ap_supports_rm_neighbor_report`: whether elements advertise
/// Neighbor Reports.
#[verifier::external_body]
fn supports_neighbor_report(ies: &[u8]) -> (r: bool)
    ensures
        r == has_neighbor_report(ies@),
{
    wl_nl80211::ap_supports_rm_neighbor_report(ies)
}

/// How many AKM suites an RSNE body holds: as many as it counts, as far as the
/// body reaches.
pub open spec fn akm_count(body: Seq<u8>) -> nat {
    match elements::akm_offset(body) {
        Some(off) => {
            let count = bytes::le16(body[off], body[off + 1]) as int;
            let room = (body.len() - off - 2) / 4;
            (if count < room {
                count
            } else {
                room
            }) as nat
        },
        None => 0,
    }
}

/// The AKM suite selectors of an RSNE body, in order.
pub open spec fn akm_list(body: Seq<u8>) -> Seq<u32> {
    Seq::new(
        akm_count(body),
        |i: int|
            {
                let at = elements::akm_offset(body)->0 + 2 + 4 * i;
                bytes::le32(body[at], body[at + 1], body[at + 2], body[at + 3])
            },
    )
}

/// The AKM suite selectors of an RSNE body, in order.
pub fn rsne_akms(body: &[u8]) -> (r: Vec<u32>)
    ensures
        r@ == akm_list(body@),
{
    let mut akms: Vec<u32> = Vec::new();
    if body.len() < 8 {
        assert(akms@ =~= akm_list(body@));
        return akms;
    }
    let off: usize = 8 + 4 * (bytes::read_le16(body, 6) as usize);
    if body.len() < off + 2 {
        assert(akms@ =~= akm_list(body@));
        return akms;
    }
    let count: usize = bytes::read_le16(body, off) as usize;
    let mut i: usize = 0;
    while i < count && body.len() - off - 2 - 4 * i >= 4
        invariant
            elements::akm_offset(body@) == Some(off as int),
            count == bytes::le16(body@[off as int], body@[off + 1]),
            off + 2 + 4 * i <= body@.len(),
            i <= count,
            i <= akm_count(body@),
            akms@ == akm_list(body@).take(i as int),
        decreases count - i,
    {
        let at: usize = off + 2 + 4 * i;
        akms.push(bytes::read_le32(body, at));
        i = i + 1;
        assert(akms@ =~= akm_list(body@).take(i as int));
    }
    assert(akm_list(body@).take(i as int) =~= akm_list(body@));
    akms
}

/// The whole first element of a list that has an identifier; nothing where
/// there is none.
pub open spec fn element_or_nothing(ies: Seq<u8>, id: u8) -> Seq<u8> {
    match first_body(ies, id) {
        Some(body) => element_octets(id, body),
        None => Seq::empty(),
    }
}

/// The mobility domain that elements name, where they do.
pub open spec fn is_mdie_of(mdie: Option<MdieInfo>, ies: Seq<u8>) -> bool {
    match first_body(ies, elements::IE_ID_MDIE) {
        Some(body) if body.len() >= 3 => {
            &&& mdie matches Some(m)
            &&& m.mdid@ == body.subrange(0, 2)
            &&& m.ft_capab == body[2]
        },
        _ => mdie is None,
    }
}

/// The security mode that elements stand for, with the privacy bit of the
/// capabilities beside them.
pub open spec fn elements_security(ies: Seq<u8>, privacy: bool) -> SecurityType {
    match first_body(ies, elements::IE_ID_RSNE) {
        Some(body) => first_supported(akm_list(body)),
        None => if privacy {
            SecurityType::Unsupported
        } else {
            SecurityType::Open
        },
    }
}

/// Whether a BSS is what its elements, with the privacy bit of its capabilities,
/// describe.
pub open spec fn is_described(r: BssInfo, privacy: bool, ies: Seq<u8>) -> bool {
    &&& r.security == elements_security(ies, privacy)
    &&& r.ap_rsne@ == element_or_nothing(ies, elements::IE_ID_RSNE)
    &&& r.ap_rsnxe@ == element_or_nothing(ies, elements::IE_ID_RSNXE)
    &&& r.group_mgmt_cipher == elements::negotiated_cipher(r.ap_rsne@)
    &&& is_mdie_of(r.mdie, ies)
    &&& !r.hidden
    &&& r.btm_support == has_btm(ies)
    &&& r.rm_neighbor_report == has_neighbor_report(ies)
}

/// A listed BSS, as its elements describe it.
pub fn describe_bss(
    bssid: [u8; 6],
    freq_mhz: u32,
    signal_dbm: i32,
    privacy: bool,
    ies: &[u8],
) -> (r: BssInfo)
    ensures
        r.bssid == bssid,
        r.freq_mhz == freq_mhz,
        r.signal_dbm == signal_dbm,
        r.security == elements_security(ies@, privacy),
        r.ap_rsne@ == element_or_nothing(ies@, elements::IE_ID_RSNE),
        r.ap_rsnxe@ == element_or_nothing(ies@, elements::IE_ID_RSNXE),
        r.group_mgmt_cipher == elements::negotiated_cipher(r.ap_rsne@),
        is_mdie_of(r.mdie, ies@),
        !r.hidden,
        r.btm_support == has_btm(ies@),
        r.rm_neighbor_report == has_neighbor_report(ies@),
        is_described(r, privacy, ies@),
{
    let mut bss = BssInfo::none();
    bss.bssid = bssid;
    bss.freq_mhz = freq_mhz;
    bss.signal_dbm = signal_dbm;
    if let Some(rsne) = whole_element(ies, elements::IE_ID_RSNE) {
        bss.ap_rsne = rsne;
    }
    if let Some(rsnxe) = whole_element(ies, elements::IE_ID_RSNXE) {
        bss.ap_rsnxe = rsnxe;
    }
    bss.group_mgmt_cipher = elements::negotiate_group_mgmt_cipher(bss.ap_rsne.as_slice());
    if let Some(body) = elements::find_ie(ies, elements::IE_ID_MDIE) {
        if let Some((mdid, ft_capab)) = elements::parse_mdie(body) {
            bss.mdie = Some(MdieInfo { mdid, ft_capab });
        }
    }
    bss.security = match elements::find_ie(ies, elements::IE_ID_RSNE) {
        Some(body) => {
            let akms = rsne_akms(body);
            bss_security(Some(akms.as_slice()), privacy)
        },
        None => bss_security(None, privacy),
    };
    bss.btm_support = supports_btm(ies);
    bss.rm_neighbor_report = supports_neighbor_report(ies);
    assert(bss.ap_rsne@ =~= element_or_nothing(ies@, elements::IE_ID_RSNE));
    assert(bss.ap_rsnxe@ =~= element_or_nothing(ies@, elements::IE_ID_RSNXE));
    bss
}

/// A BSS that a scan found, with the SSID of the network it belongs to.
#[derive(Debug, Clone)]
pub struct Candidate {
    pub ssid: String,
    pub bss: BssInfo,
}

/// Whether the network at a position is the first configured one of an SSID.
pub open spec fn is_network_of(networks: Seq<NetworkConfig>, ssid: Seq<char>, n: int) -> bool {
    &&& 0 <= n < networks.len()
    &&& networks[n].ssid@ == ssid
    &&& forall|k: int| 0 <= k < n ==> (#[trigger] networks[k]).ssid@ != ssid
}

/// Whether a BSS can be connected to: its SSID is configured and its security
/// is supported.
pub open spec fn is_match(networks: Seq<NetworkConfig>, candidate: Candidate) -> bool {
    &&& candidate.bss.security != SecurityType::Unsupported
    &&& exists|n: int| #[trigger] is_network_of(networks, candidate.ssid@, n)
}

/// Whether the BSS at a position is the strongest that can be connected to,
/// and the first of those.
pub open spec fn is_strongest(
    networks: Seq<NetworkConfig>,
    candidates: Seq<Candidate>,
    i: int,
) -> bool {
    &&& 0 <= i < candidates.len()
    &&& is_match(networks, candidates[i])
    &&& forall|k: int|
        #![trigger candidates[k]]
        0 <= k < candidates.len() && is_match(networks, candidates[k])
            ==> candidates[k].bss.signal_dbm <= candidates[i].bss.signal_dbm && (k < i
            ==> candidates[k].bss.signal_dbm < candidates[i].bss.signal_dbm)
}

/// Whether a BSS of a scan with a network is what is selected.
pub open spec fn is_selection(
    networks: Seq<NetworkConfig>,
    candidates: Seq<Candidate>,
    network: NetworkConfig,
    bss: BssInfo,
    i: int,
    n: int,
) -> bool {
    &&& is_strongest(networks, candidates, i)
    &&& bss == candidates[i].bss
    &&& is_network_of(networks, candidates[i].ssid@, n)
    &&& network@ == networks[n]@
}

/// The position of the first configured network of an SSID.
fn network_of(networks: &Vec<NetworkConfig>, ssid: &String) -> (r: Option<usize>)
    ensures
        match r {
            Some(n) => is_network_of(networks@, ssid@, n as int),
            None => forall|n: int| !#[trigger] is_network_of(networks@, ssid@, n),
        },
{
    let mut i: usize = 0;
    while i < networks.len()
        invariant
            i <= networks@.len(),
            forall|k: int| 0 <= k < i ==> (#[trigger] networks@[k]).ssid@ != ssid@,
        decreases networks.len() - i,
    {
        if text::same_text(&networks[i].ssid, ssid) {
            return Some(i);
        }
        i += 1;
    }
    None
}

/// Choose among the BSSs of a scan: the strongest one of a configured SSID
/// wins, and its network's credentials are used. Where two are equally strong
/// the one found first wins; where an SSID is configured twice its first
/// configuration counts.
pub fn select_bss(networks: &Vec<NetworkConfig>, candidates: Vec<Candidate>) -> (r: ScanOutcome)
    ensures
        match r {
            ScanOutcome::Selected(network, bss) => exists|i: int, n: int|
                #[trigger] is_selection(networks@, candidates@, network, bss, i, n),
            ScanOutcome::NotSelected(e) => {
                &&& e.is(ErrorKind::SsidNotFound, "no BSS of a configured SSID found"@)
                &&& forall|k: int|
                    0 <= k < candidates@.len() ==> !is_match(networks@, #[trigger] candidates@[k])
            },
        },
{
    let mut candidates = candidates;
    let ghost all = candidates@;
    let mut best: Option<(usize, usize)> = None;
    let mut i: usize = 0;
    while i < candidates.len()
        invariant
            i <= candidates@.len(),
            candidates@ == all,
            match best {
                Some((b, n)) => {
                    &&& b < i
                    &&& is_strongest(networks@, all.take(i as int), b as int)
                    &&& is_network_of(networks@, all[b as int].ssid@, n as int)
                },
                None => forall|k: int| 0 <= k < i ==> !is_match(networks@, #[trigger] all[k]),
            },
        decreases candidates.len() - i,
    {
        let ghost next = all.take(i + 1);
        assert(next[i as int] == all[i as int]);
        assert forall|k: int| 0 <= k < i implies #[trigger] next[k] == all.take(i as int)[k] by {}
        let candidate = &candidates[i];
        if candidate.bss.security != SecurityType::Unsupported {
            if let Some(n) = network_of(networks, &candidate.ssid) {
                let stronger = match best {
                    Some((b, _)) => candidate.bss.signal_dbm > candidates[b].bss.signal_dbm,
                    None => true,
                };
                if stronger {
                    best = Some((i, n));
                }
            }
        }
        i += 1;
    }
    assert(all.take(all.len() as int) =~= all);
    match best {
        Some((b, n)) => {
            let network = networks[n].copy();
            let bss = candidates.swap_remove(b).bss;
            assert(is_selection(networks@, all, network, bss, b as int, n as int));
            ScanOutcome::Selected(network, bss)
        },
        None => ScanOutcome::NotSelected(
            WifiError::new(ErrorKind::SsidNotFound, "no BSS of a configured SSID found"),
        ),
    }
}

/// The strongest matching BSS wins: whatever a scan found, no other BSS that
/// can be connected to is stronger than the selected one, and the network
/// whose credentials are used has its SSID.
pub proof fn law_strongest_match_wins(
    networks: Seq<NetworkConfig>,
    candidates: Seq<Candidate>,
    network: NetworkConfig,
    bss: BssInfo,
    i: int,
    n: int,
    k: int,
)
    requires
        is_selection(networks, candidates, network, bss, i, n),
        0 <= k < candidates.len(),
        is_match(networks, candidates[k]),
    ensures
        candidates[k].bss.signal_dbm <= bss.signal_dbm,
        network@.ssid == candidates[i].ssid@,
        bss.security != SecurityType::Unsupported,
{
}

/// The mobility domain of a BSS is read from the first element 54 of its
/// elements: two octets name the domain, and one tells its capabilities.
pub proof fn law_mobility_domain(mdie: Option<MdieInfo>, ies: Seq<u8>, a: u8, b: u8, c: u8)
    requires
        is_mdie_of(mdie, seq![54u8, 3, a, b, c] + ies),
    ensures
        mdie is Some,
        mdie->0.mdid@ == seq![a, b],
        mdie->0.ft_capab == c,
{
    let s = seq![54u8, 3, a, b, c] + ies;
    assert(s[0] == 54 && s[1] == 3);
    assert(tlv::complete_at(s, 0));
    let rest = tlv::elements_from(s, 5);
    let e = tlv::element_at(s, 0);
    assert(tlv::elements_from(s, 0) == seq![e] + rest);
    assert((seq![e] + rest)[0] == e);
    assert(e.body =~= seq![a, b, c]);
    assert(e.body.subrange(0, 2) =~= seq![a, b]);
}

/// The elements that a handshake holds the access point to are the first RSNE
/// (48) and the first RSNXE (244) of its beacon, whole, and nothing where it has
/// none; an RSNE with an understood AKM makes the mode.
pub proof fn law_described_elements(r: BssInfo, privacy: bool, ies: Seq<u8>)
    requires
        is_described(r, privacy, ies),
    ensures
        match tlv::first_with(tlv::elements_from(ies, 0), 48) {
            Some(e) => r.ap_rsne@ == seq![48u8, e.body.len() as u8] + e.body && r.security
                == first_supported(akm_list(e.body)),
            None => r.ap_rsne@.len() == 0 && r.security == if privacy {
                SecurityType::Unsupported
            } else {
                SecurityType::Open
            },
        },
        match tlv::first_with(tlv::elements_from(ies, 0), 244) {
            Some(e) => r.ap_rsnxe@ == seq![244u8, e.body.len() as u8] + e.body,
            None => r.ap_rsnxe@.len() == 0,
        },
        match tlv::first_with(tlv::elements_from(ies, 0), 54) {
            Some(e) if e.body.len() >= 3 => r.mdie is Some && r.mdie->0.mdid@ == e.body.subrange(
                0,
                2,
            ) && r.mdie->0.ft_capab == e.body[2],
            _ => r.mdie is None,
        },
        match tlv::first_with(tlv::elements_from(ies, 0), 127) {
            Some(e) => r.btm_support == (e.body.len() > 2 && e.body[2] & 8 != 0),
            None => !r.btm_support,
        },
        match tlv::first_with(tlv::elements_from(ies, 0), 70) {
            Some(e) => r.rm_neighbor_report == (e.body.len() > 0 && e.body[0] & 2 != 0),
            None => !r.rm_neighbor_report,
        },
{
}

} // verus!
