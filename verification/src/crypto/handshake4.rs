//! 4-Way Handshake state machine and crypto operations (IEEE 802.11-2020
//! §12.7). Supports SAE AKM (00-0F-AC:8) and OWE AKM (00-0F-AC:18) with
//! CCMP-128:
//!   - PMK: 32 bytes
//!   - KCK: 16 bytes
//!   - KEK: 16 bytes
//!   - TK: 16 bytes (CCMP-128 temporal key)
//!
//! SAE uses KDF-Hash-Length + AES-CMAC MIC; OWE uses PRF + HMAC-SHA256 MIC
//! (RFC 8110 Table 2).

use vstd::prelude::*;
use vstd::string::*;

use crate::bytes;
use crate::crypto::ft;
use crate::crypto::kdf;
use crate::crypto::ocv;
use crate::crypto::ocv::Ocv;
use crate::crypto::primitives;
use crate::error::{ErrorKind, WifiError};
use crate::ieee80211::eapol;
use crate::ieee80211::elements;
use crate::ieee80211::tlv;
use crate::text;

verus! {

pub const KCK_LEN: usize = 16;

pub const KEK_LEN: usize = 16;

pub const TK_LEN: usize = 16;

pub const PTK_LEN: usize = 48;

pub const EAPOL_MIC_LEN: usize = 16;

/// MIC / KDF algorithm selection, determined by the AKM.
#[derive(Debug, Clone, Copy, PartialEq, Eq, Structural)]
pub enum MicAlg {
    /// SAE (00-0F-AC:8): AES-CMAC MIC, KDF-Hash-Length PTK.
    AesCmac,
    /// OWE (00-0F-AC:18): HMAC-SHA256 MIC, KDF-Hash-Length PTK.
    HmacSha256,
    /// WPA2-PSK (00-0F-AC:2): HMAC-SHA1 MIC, PRF-SHA1 PTK.
    HmacSha1,
}

/// 4-Way Handshake state (supplicant side).
#[derive(Clone, Debug)]
pub struct FourWayState {
    pub pmk: [u8; 32],
    pub mac_sta: [u8; 6],
    pub mac_ap: [u8; 6],
    pub anonce: Option<[u8; 32]>,
    pub snonce: [u8; 32],
    pub ptk: Option<[u8; PTK_LEN]>,
    pub replay_counter: u64,
    pub rsne: Vec<u8>,
    /// The AP's RSNE as seen in the beacon/probe response, for the Message 3
    /// downgrade check (802.11-2020 §12.7.6.4; empty when the caller has
    /// none, which disables the check).
    pub ap_rsne: Vec<u8>,
    /// The AP's RSNXE as seen in the beacon/probe response (empty when the
    /// AP advertises none).
    pub ap_rsnxe: Vec<u8>,
    pub gtk: Option<Vec<u8>>,
    pub gtk_index: u8,
    pub mic_alg: MicAlg,
    /// Key Descriptor Version echoed from Message 1 (0 = AKM-defined, 2 =
    /// HMAC-SHA1 MIC, 3 = AES-128-CMAC MIC).
    pub desc_version: u16,
    /// FT key hierarchy input: when set (initial association with an FT
    /// AKM), the PTK comes from PMK-R1 instead of the PMK (802.11-2020
    /// §12.8.2.3).
    pub ft_pmk_r1: Option<ft::PmkR1>,
    /// Operating Channel Validation: our OCI goes into Message 2 and the AP's
    /// is checked in Message 3 and in group rekeys.
    pub ocv: Option<Ocv>,
    /// Extended Key ID: Message 3 must name the pairwise key id.
    pub ext_key_id: bool,
    /// The pairwise key id that the AP selected in Message 3.
    pub key_id: Option<u8>,
}

/// The value that orders MAC addresses: the address read as one big-endian
/// number.
pub open spec fn mac_less(a: Seq<u8>, b: Seq<u8>) -> bool {
    bytes::be_nat(a) < bytes::be_nat(b)
}

/// The context of the pairwise key expansion: both addresses and both
/// nonces, the lesser of each pair first.
pub open spec fn ptk_context(
    mac_ap: Seq<u8>,
    mac_sta: Seq<u8>,
    anonce: Seq<u8>,
    snonce: Seq<u8>,
) -> Seq<u8> {
    (if mac_less(mac_ap, mac_sta) {
        mac_ap + mac_sta
    } else {
        mac_sta + mac_ap
    }) + (if bytes::lex_less(anonce, snonce) {
        anonce + snonce
    } else {
        snonce + anonce
    })
}

/// The pairwise transient key of an AKM that is not FT.
pub open spec fn pairwise_ptk(alg: MicAlg, pmk: Seq<u8>, context: Seq<u8>) -> Seq<u8> {
    match alg {
        MicAlg::HmacSha1 => kdf::prf_sha1_output(
            pmk,
            "Pairwise key expansion".spec_bytes(),
            context,
            48,
        ),
        _ => kdf::kdf_output(pmk, "Pairwise key expansion".spec_bytes(), context, 48),
    }
}

/// The EAPOL-Key MIC of an AKM over `data`.
pub open spec fn mic_value(alg: MicAlg, kck: Seq<u8>, data: Seq<u8>) -> Seq<u8> {
    match alg {
        MicAlg::AesCmac => primitives::aes_128_cmac(kck, data),
        MicAlg::HmacSha256 => primitives::hmac_sha256(kck, data).subrange(0, 16),
        MicAlg::HmacSha1 => primitives::hmac_sha1(kck, data).subrange(0, 16),
    }
}

/// The MIC that belongs in a PDU: computed with the MIC field zero.
pub open spec fn pdu_mic(alg: MicAlg, kck: Seq<u8>, pdu: Seq<u8>) -> Seq<u8> {
    mic_value(alg, kck, eapol::with_mic(pdu, bytes::zeros(16)))
}

/// A PDU with its MIC filled in.
pub open spec fn sealed(alg: MicAlg, kck: Seq<u8>, pdu: Seq<u8>) -> Seq<u8> {
    eapol::with_mic(pdu, pdu_mic(alg, kck, pdu))
}

/// Whether `out` is a PDU with its 16-octet MIC filled in.
pub open spec fn is_sealed(out: Seq<u8>, alg: MicAlg, kck: Seq<u8>, pdu: Seq<u8>) -> bool {
    &&& pdu_mic(alg, kck, pdu).len() == 16
    &&& out == sealed(alg, kck, pdu)
}

/// What unwrapping a key with a 128-bit KEK gives: the key, or the message
/// of the error.
pub open spec fn key_unwrap(kek: Seq<u8>, wrapped: Seq<u8>) -> Result<Seq<u8>, Seq<char>> {
    if wrapped.len() < 16 || wrapped.len() % 8 != 0 {
        Err("invalid wrapped key length"@)
    } else {
        match primitives::aes_128_unwrapped(kek, wrapped) {
            Some(plain) => Ok(plain),
            None => Err("key unwrap: Unspecified"@),
        }
    }
}

/// The key data of a frame in the clear: unwrapped where there is any and it
/// is marked as encrypted.
pub open spec fn plain_key_data(
    kek: Seq<u8>,
    key_info: u16,
    key_data: Seq<u8>,
) -> Result<Seq<u8>, Seq<char>> {
    if key_data.len() > 0 && key_info & eapol::KEY_INFO_ENCRYPTED_DATA != 0 {
        key_unwrap(kek, key_data)
    } else {
        Ok(key_data)
    }
}

/// An IGTK or BIGTK extracted from its EAPOL-Key key data KDE: key index,
/// the 6-octet IPN (initial packet number = RX sequence counter) and the key
/// itself (802.11-2020 §12.7.2, KDE types 9 and 10).
#[derive(Debug, Clone, PartialEq, Eq)]
pub struct MgmtKeyKde {
    pub key_index: u8,
    pub ipn: [u8; 6],
    pub key: Vec<u8>,
}

/// The KDEs / IEs parsed out of a decrypted EAPOL-Key key data field
/// (Message 3 of the 4-way handshake).
#[derive(Debug, Clone, PartialEq, Eq)]
pub struct KeyDataKdes {
    /// GTK KDE (type 1): (key index, GTK).
    pub gtk: Option<(u8, Vec<u8>)>,
    /// IGTK KDE (type 9), present on every PMF AP.
    pub igtk: Option<MgmtKeyKde>,
    /// BIGTK KDE (type 10), present when the AP enables beacon protection.
    pub bigtk: Option<MgmtKeyKde>,
    /// The AP's RSNE as a full element (ID + length + body).
    pub rsne: Option<Vec<u8>>,
    /// The AP's RSNXE as a full element (ID 244 + length + body).
    pub rsnxe: Option<Vec<u8>>,
    /// Transition Disable KDE bitmap (WFA OUI 50:6F:9A, type 0x20): bit 0 =
    /// WPA3-Personal, 1 = SAE-PK, 2 = WPA3-Enterprise, 3 = Enhanced Open.
    pub transition_disable: Option<u8>,
    /// Key ID KDE (type 10, too short for a BIGTK): the pairwise key id that
    /// the AP selected (Extended Key ID).
    pub key_id: Option<u8>,
}

/// A management group key as plain data.
pub struct MgmtKey {
    pub key_index: u8,
    pub ipn: Seq<u8>,
    pub key: Seq<u8>,
}

/// What a key data field carries, as plain data.
pub struct Kdes {
    pub gtk: Option<(u8, Seq<u8>)>,
    pub igtk: Option<MgmtKey>,
    pub bigtk: Option<MgmtKey>,
    pub rsne: Option<Seq<u8>>,
    pub rsnxe: Option<Seq<u8>>,
    pub transition_disable: Option<u8>,
    pub key_id: Option<u8>,
}

impl View for MgmtKeyKde {
    type V = MgmtKey;

    open spec fn view(&self) -> MgmtKey {
        MgmtKey { key_index: self.key_index, ipn: self.ipn@, key: self.key@ }
    }
}

/// The view of an optional byte vector.
pub open spec fn opt_bytes(v: Option<Vec<u8>>) -> Option<Seq<u8>> {
    match v {
        Some(b) => Some(b@),
        None => None,
    }
}

/// The view of an optional management group key.
pub open spec fn opt_mgmt(v: Option<MgmtKeyKde>) -> Option<MgmtKey> {
    match v {
        Some(k) => Some(k@),
        None => None,
    }
}

impl View for KeyDataKdes {
    type V = Kdes;

    open spec fn view(&self) -> Kdes {
        Kdes {
            gtk: match self.gtk {
                Some((idx, key)) => Some((idx, key@)),
                None => None,
            },
            igtk: opt_mgmt(self.igtk),
            bigtk: opt_mgmt(self.bigtk),
            rsne: opt_bytes(self.rsne),
            rsnxe: opt_bytes(self.rsnxe),
            transition_disable: self.transition_disable,
            key_id: self.key_id,
        }
    }
}

/// Element identifier of a vendor specific element, which carries a KDE.
pub const VENDOR_ID: u8 = 0xDD;

pub const GTK_KDE_TYPE: u8 = 1;

pub const IGTK_KDE_TYPE: u8 = 9;

/// A KDE of this type is a BIGTK where it is long enough to hold one, and
/// names the pairwise key id (Extended Key ID) otherwise.
pub const BIGTK_KDE_TYPE: u8 = 10;

pub const WFA_TRANSITION_DISABLE_TYPE: u8 = 0x20;

/// Whether an element is a KDE of the RSN OUI 00-0F-AC.
pub open spec fn is_rsn_kde(e: tlv::Element) -> bool {
    e.id == VENDOR_ID && e.body.len() >= 4 && e.body[0] == 0x00 && e.body[1] == 0x0F && e.body[2]
        == 0xAC
}

/// Whether an element is a KDE of the WFA OUI 50-6F-9A.
pub open spec fn is_wfa_kde(e: tlv::Element) -> bool {
    e.id == VENDOR_ID && e.body.len() >= 4 && e.body[0] == 0x50 && e.body[1] == 0x6F && e.body[2]
        == 0x9A
}

/// The key in an IGTK or BIGTK KDE.
pub open spec fn mgmt_key(body: Seq<u8>) -> MgmtKey {
    MgmtKey {
        key_index: body[4],
        ipn: body.subrange(6, 12),
        key: body.subrange(12, body.len() as int),
    }
}

/// Nothing at all.
pub open spec fn no_kdes() -> Kdes {
    Kdes {
        gtk: None,
        igtk: None,
        bigtk: None,
        rsne: None,
        rsnxe: None,
        transition_disable: None,
        key_id: None,
    }
}

/// What is known after one more element: an element of a kind replaces what
/// an earlier one of that kind said.
pub open spec fn with_element(k: Kdes, e: tlv::Element) -> Kdes {
    if is_wfa_kde(e) {
        if e.body[3] == WFA_TRANSITION_DISABLE_TYPE && e.body.len() >= 5 {
            Kdes { transition_disable: Some(e.body[4]), ..k }
        } else {
            k
        }
    } else if is_rsn_kde(e) {
        if e.body[3] == GTK_KDE_TYPE && e.body.len() >= 7 {
            Kdes {
                gtk: Some((e.body[4] & 0x03, e.body.subrange(6, e.body.len() as int))),
                ..k
            }
        } else if e.body[3] == IGTK_KDE_TYPE && e.body.len() >= 28 {
            Kdes { igtk: Some(mgmt_key(e.body)), ..k }
        } else if e.body[3] == BIGTK_KDE_TYPE && e.body.len() >= 28 {
            Kdes { bigtk: Some(mgmt_key(e.body)), ..k }
        } else if e.body[3] == BIGTK_KDE_TYPE && e.body.len() >= 5 {
            Kdes { key_id: Some(e.body[4] & 0x03), ..k }
        } else {
            k
        }
    } else if e.id == elements::IE_ID_RSNE {
        Kdes { rsne: Some(seq![e.id, e.body.len() as u8] + e.body), ..k }
    } else if e.id == elements::IE_ID_RSNXE {
        Kdes { rsnxe: Some(seq![e.id, e.body.len() as u8] + e.body), ..k }
    } else {
        k
    }
}

/// What a list of elements carries: the last of each kind.
pub open spec fn kdes_of(list: Seq<tlv::Element>) -> Kdes
    decreases list.len(),
{
    if list.len() == 0 {
        no_kdes()
    } else {
        with_element(kdes_of(list.drop_last()), list.last())
    }
}

/// What a key data field carries.
pub open spec fn key_data_kdes(key_data: Seq<u8>) -> Kdes {
    kdes_of(tlv::elements_from(key_data, 0))
}

/// Parse the (decrypted) EAPOL-Key key data of Message 3: a sequence of KDEs
/// (vendor elements with OUI 00-0F-AC) and plain IEs. Collects the GTK, IGTK
/// and BIGTK KDEs, the Key ID KDE, and the AP's RSNE / RSNXE for the downgrade
/// check.
pub fn parse_key_data_kdes(key_data: &[u8]) -> (kdes: KeyDataKdes)
    ensures
        kdes@ == key_data_kdes(key_data@),
{
    let mut kdes = KeyDataKdes {
        gtk: None,
        igtk: None,
        bigtk: None,
        rsne: None,
        rsnxe: None,
        transition_disable: None,
        key_id: None,
    };
    let mut pos: usize = 0;
    let ghost mut done: Seq<tlv::Element> = Seq::empty();
    assert(kdes@ == kdes_of(done));
    assert(done + tlv::elements_from(key_data@, 0) =~= tlv::elements_from(key_data@, 0));
    loop
        invariant
            pos <= key_data@.len(),
            kdes@ == kdes_of(done),
            tlv::elements_from(key_data@, 0) == done + tlv::elements_from(key_data@, pos as int),
        ensures
            kdes@ == key_data_kdes(key_data@),
        decreases key_data@.len() - pos,
    {
        match tlv::next_end(key_data, pos) {
            None => {
                assert(done + tlv::elements_from(key_data@, pos as int) =~= done);
                break ;
            },
            Some(end) => {
                let ghost e = tlv::element_at(key_data@, pos as int);
                let ghost before = kdes@;
                kdes = add_element(kdes, key_data, pos, end);
                proof {
                    let next = done.push(e);
                    assert(next.drop_last() =~= done);
                    assert(kdes@ == kdes_of(next));
                    assert(done + (seq![e] + tlv::elements_from(key_data@, end as int)) =~= next
                        + tlv::elements_from(key_data@, end as int));
                    done = next;
                }
                pos = end;
            },
        }
    }
    kdes
}

/// Take one more element of a key data field into account.
fn add_element(kdes: KeyDataKdes, key_data: &[u8], pos: usize, end: usize) -> (r: KeyDataKdes)
    requires
        tlv::complete_at(key_data@, pos as int),
        end == tlv::end_at(key_data@, pos as int),
    ensures
        r@ == with_element(kdes@, tlv::element_at(key_data@, pos as int)),
{
    let mut kdes = kdes;
    let ghost e = tlv::element_at(key_data@, pos as int);
    let id: u8 = key_data[pos];
    let at: usize = pos + 2;
    let len: usize = end - at;
    let oui = id == VENDOR_ID && len >= 4;
    if oui && key_data[at] == 0x50 && key_data[at + 1] == 0x6F && key_data[at + 2] == 0x9A {
        if key_data[at + 3] == WFA_TRANSITION_DISABLE_TYPE && len >= 5 {
            kdes.transition_disable = Some(key_data[at + 4]);
        }
    } else if oui && key_data[at] == 0x00 && key_data[at + 1] == 0x0F && key_data[at + 2] == 0xAC {
        let data_type: u8 = key_data[at + 3];
        if data_type == GTK_KDE_TYPE && len >= 7 {
            let key_id: u8 = key_data[at + 4] & 0x03;
            let gtk = bytes::sub_vec(key_data, at + 6, end);
            assert(gtk@ =~= e.body.subrange(6, e.body.len() as int));
            kdes.gtk = Some((key_id, gtk));
        } else if (data_type == IGTK_KDE_TYPE || data_type == BIGTK_KDE_TYPE) && len >= 28 {
            let key = MgmtKeyKde {
                key_index: key_data[at + 4],
                ipn: bytes::array6(key_data, at + 6),
                key: bytes::sub_vec(key_data, at + 12, end),
            };
            assert(key@.ipn =~= e.body.subrange(6, 12));
            assert(key@.key =~= e.body.subrange(12, e.body.len() as int));
            if data_type == IGTK_KDE_TYPE {
                kdes.igtk = Some(key);
            } else {
                kdes.bigtk = Some(key);
            }
        } else if data_type == BIGTK_KDE_TYPE && len >= 5 {
            kdes.key_id = Some(key_data[at + 4] & 0x03);
        }
    } else if id == elements::IE_ID_RSNE {
        let whole = bytes::sub_vec(key_data, pos, end);
        assert(whole@ =~= seq![e.id, e.body.len() as u8] + e.body);
        kdes.rsne = Some(whole);
    } else if id == elements::IE_ID_RSNXE {
        let whole = bytes::sub_vec(key_data, pos, end);
        assert(whole@ =~= seq![e.id, e.body.len() as u8] + e.body);
        kdes.rsnxe = Some(whole);
    }
    kdes
}

/// Parse a GTK KDE from (decrypted) EAPOL-Key key data. Returns (key index,
/// GTK). Key data is a sequence of KDEs/IEs; the GTK KDE has element id 0xDD,
/// OUI 00-0F-AC, data type 1, followed by a key-info octet (low 2 bits = key
/// id), a reserved octet, then the GTK.
pub fn parse_gtk_kde(key_data: &[u8]) -> (r: Option<(u8, Vec<u8>)>)
    ensures
        match r {
            Some((idx, gtk)) => key_data_kdes(key_data@).gtk == Some((idx, gtk@)),
            None => key_data_kdes(key_data@).gtk is None,
        },
{
    parse_key_data_kdes(key_data).gtk
}

/// Compute AES-128-CMAC over arbitrary bytes (the EAPOL-Key MIC for the SAE
/// AKM with CCMP-128).
pub fn aes_cmac(kck: &[u8; KCK_LEN], data: &[u8]) -> (r: Result<[u8; EAPOL_MIC_LEN], WifiError>)
    ensures
        r matches Ok(mic) && mic@ == primitives::aes_128_cmac(kck@, data@),
{
    Ok(primitives::sign_aes_128_cmac(kck, data))
}

/// AES Key Unwrap (RFC 3394 / NIST SP 800-38F) for GTK extraction.
pub fn aes_key_unwrap(kek: &[u8; KEK_LEN], wrapped: &[u8]) -> (r: Result<Vec<u8>, WifiError>)
    ensures
        r matches Ok(plain) ==> plain@.len() + 8 == wrapped@.len(),
        match r {
            Ok(plain) => key_unwrap(kek@, wrapped@) == Ok::<Seq<u8>, Seq<char>>(plain@),
            Err(e) => e.kind == ErrorKind::HandshakeFailed && e.iface_name is None && key_unwrap(
                kek@,
                wrapped@,
            ) == Err::<Seq<u8>, Seq<char>>(e.msg@),
        },
{
    if wrapped.len() < 16 || wrapped.len() % 8 != 0 {
        return Err(WifiError::new(ErrorKind::HandshakeFailed, "invalid wrapped key length"));
    }
    match primitives::unwrap_aes_128(kek, wrapped, wrapped.len() - 8) {
        Some(plain) => Ok(plain),
        None => Err(WifiError::new(ErrorKind::HandshakeFailed, "key unwrap: Unspecified")),
    }
}

/// The address as one big-endian number.
pub fn u64_from_mac(mac: &[u8; 6]) -> (r: u64)
    ensures
        r as nat == bytes::be_nat(mac@),
{
    proof {
        let s = mac@;
        reveal_with_fuel(bytes::be_nat, 7);
        assert(s.drop_last() =~= s.subrange(0, 5));
        assert(s.subrange(0, 5).drop_last() =~= s.subrange(0, 4));
        assert(s.subrange(0, 4).drop_last() =~= s.subrange(0, 3));
        assert(s.subrange(0, 3).drop_last() =~= s.subrange(0, 2));
        assert(s.subrange(0, 2).drop_last() =~= s.subrange(0, 1));
        assert(s.subrange(0, 1).drop_last() =~= s.subrange(0, 0));
    }
    let hi: u64 = (mac[0] as u64) * 0x100_0000_0000 + (mac[1] as u64) * 0x1_0000_0000 + (
    mac[2] as u64) * 0x100_0000;
    let lo: u64 = (mac[3] as u64) * 0x1_0000 + (mac[4] as u64) * 0x100 + (mac[5] as u64);
    hi + lo
}

/// The MIC of an AKM over `data`.
pub fn compute_mic(alg: MicAlg, kck: &[u8; KCK_LEN], data: &[u8]) -> (r: Result<
    [u8; EAPOL_MIC_LEN],
    WifiError,
>)
    ensures
        r matches Ok(mic) && mic@ == mic_value(alg, kck@, data@),
{
    match alg {
        MicAlg::AesCmac => aes_cmac(kck, data),
        MicAlg::HmacSha256 => Ok(kdf::hmac_sha256_mic(kck, data)),
        MicAlg::HmacSha1 => Ok(kdf::hmac_sha1_mic(kck, data)),
    }
}

/// Fill in the MIC of a PDU.
pub fn seal(alg: MicAlg, kck: &[u8; KCK_LEN], pdu: Vec<u8>) -> (r: Result<Vec<u8>, WifiError>)
    ensures
        r matches Ok(out) && is_sealed(out@, alg, kck@, pdu@),
{
    let mut pdu = pdu;
    let zeroed = eapol::pdu_with_zeroed_mic(pdu.as_slice());
    match compute_mic(alg, kck, zeroed.as_slice()) {
        Ok(mic) => {
            eapol::set_mic(pdu.as_mut_slice(), &mic);
            Ok(pdu)
        },
        Err(e) => Err(e),
    }
}

/// The text of an optional byte list.
pub open spec fn opt_hex_text(v: Option<Seq<u8>>) -> Seq<char> {
    match v {
        Some(b) => "Some("@ + text::hex_list(b) + ")"@,
        None => "None"@,
    }
}

/// Why the RSNE or RSNXE in a Message 3 is not the one the AP advertises,
/// where that is so.
pub open spec fn downgrade_error(
    is_ft: bool,
    ap_rsne: Seq<u8>,
    ap_rsnxe: Seq<u8>,
    kdes: Kdes,
) -> Option<Seq<char>> {
    if ap_rsne.len() == 0 {
        None
    } else {
        match kdes.rsne {
            None => Some("Message 3 key data carries no RSNE"@),
            Some(rsne) => {
                let same = if is_ft {
                    elements::rsne_same_but_pmkids(rsne, ap_rsne)
                } else {
                    rsne == ap_rsne
                };
                if !same {
                    Some(
                        "RSNE downgrade detected: Message 3 RSNE "@ + text::hex_list(rsne)
                            + " differs from beacon RSNE "@ + text::hex_list(ap_rsne),
                    )
                } else if ap_rsnxe.len() > 0 && kdes.rsnxe != Some(ap_rsnxe) {
                    Some(
                        "RSNXE downgrade detected: Message 3 RSNXE "@ + opt_hex_text(kdes.rsnxe)
                            + " differs from beacon RSNXE "@ + text::hex_list(ap_rsnxe),
                    )
                } else {
                    None
                }
            },
        }
    }
}

impl FourWayState {
    /// The key confirmation key.
    pub open spec fn spec_kck(self) -> Seq<u8> {
        self.ptk->0@.subrange(0, 16)
    }

    /// The key encryption key.
    pub open spec fn spec_kek(self) -> Seq<u8> {
        self.ptk->0@.subrange(16, 32)
    }

    /// The temporal key.
    pub open spec fn spec_tk(self) -> Seq<u8> {
        self.ptk->0@.subrange(32, 48)
    }

    /// The pairwise transient key of this exchange.
    pub open spec fn ptk_value(self) -> Seq<u8> {
        match self.ft_pmk_r1 {
            Some(r1) => ft::ft_ptk(
                r1.key@,
                self.snonce@,
                self.anonce->0@,
                self.mac_ap@,
                self.mac_sta@,
            ),
            None => pairwise_ptk(
                self.mic_alg,
                self.pmk@,
                ptk_context(self.mac_ap@, self.mac_sta@, self.anonce->0@, self.snonce@),
            ),
        }
    }

    /// Whether this is a state in which no message has been seen yet.
    pub open spec fn is_new(self) -> bool {
        &&& self.anonce is None
        &&& self.ptk is None
        &&& self.replay_counter == 0
        &&& self.gtk is None
        &&& self.gtk_index == 0
        &&& self.desc_version == 0
        &&& self.key_id is None
    }

    /// The key data of Message 2: the RSNE and, with Operating Channel
    /// Validation, our OCI.
    pub open spec fn message_2_key_data(self) -> Seq<u8> {
        self.rsne@ + (match self.ocv {
            Some(o) => ocv::oci_kde(o.oci@),
            None => Seq::empty(),
        })
    }

    /// Why the channel that the AP names in key data is refused, where it is:
    /// with Operating Channel Validation it must be the channel of the BSS.
    pub open spec fn channel_error(self, plain: Seq<u8>) -> Option<Seq<char>> {
        match self.ocv {
            Some(o) => ocv::oci_error(plain, o.freq_mhz),
            None => None,
        }
    }

    /// The key data of a frame in the clear.
    pub open spec fn clear_data(self, frame: eapol::EapolKeyFrame) -> Result<Seq<u8>, Seq<char>> {
        plain_key_data(self.spec_kek(), frame.key_info, frame.key_data@)
    }

    /// What the key data of a frame carries.
    pub open spec fn frame_kdes(self, frame: eapol::EapolKeyFrame) -> Kdes {
        key_data_kdes(self.clear_data(frame)->Ok_0)
    }

    /// The MIC that belongs in a frame under the keys of this state.
    pub open spec fn frame_mic(self, frame: eapol::EapolKeyFrame) -> Seq<u8> {
        pdu_mic(self.mic_alg, self.spec_kck(), frame.raw@)
    }

    /// Why a Message 3 is refused, where it is.
    pub open spec fn message_3_error(self, frame: eapol::EapolKeyFrame) -> Option<Seq<char>> {
        self.message_3_error_under(frame, self.frame_mic(frame))
    }

    /// Why a Message 3 is refused, where it is, if `mic` is the MIC that belongs
    /// in it.
    pub open spec fn message_3_error_under(
        self,
        frame: eapol::EapolKeyFrame,
        mic: Seq<u8>,
    ) -> Option<Seq<char>> {
        if frame.replay_counter < self.replay_counter {
            Some(
                "Message 3 replay counter "@ + text::dec(frame.replay_counter as nat)
                    + " < Message 1 counter "@ + text::dec(self.replay_counter as nat),
            )
        } else if self.ptk is None {
            Some("PTK not derived"@)
        } else if mic != frame.key_mic@ {
            Some("MIC mismatch"@)
        } else {
            match self.clear_data(frame) {
                Err(msg) => Some(msg),
                Ok(plain) => self.key_data_error(plain),
            }
        }
    }

    /// Why the key data of a Message 3 is refused, where it is: for the AP's
    /// RSNE or RSNXE, for its channel, or because it names no pairwise key id
    /// although Extended Key ID is in use.
    pub open spec fn key_data_error(self, plain: Seq<u8>) -> Option<Seq<char>> {
        let kdes = key_data_kdes(plain);
        let downgrade = downgrade_error(
            self.ft_pmk_r1 is Some,
            self.ap_rsne@,
            self.ap_rsnxe@,
            kdes,
        );
        if downgrade is Some {
            downgrade
        } else if self.channel_error(plain) is Some {
            self.channel_error(plain)
        } else if self.ext_key_id && kdes.key_id is None {
            Some("Extended Key ID: AP Message 3 carries no Key ID KDE"@)
        } else {
            None
        }
    }

    /// Why a group key handshake Message 1 is refused, where it is.
    pub open spec fn group_rekey_error(self, frame: eapol::EapolKeyFrame) -> Option<Seq<char>> {
        self.group_rekey_error_under(frame, self.frame_mic(frame))
    }

    /// Why a group key handshake Message 1 is refused, where it is, if `mic` is
    /// the MIC that belongs in it.
    pub open spec fn group_rekey_error_under(
        self,
        frame: eapol::EapolKeyFrame,
        mic: Seq<u8>,
    ) -> Option<Seq<char>> {
        if frame.replay_counter <= self.replay_counter {
            Some(
                "group rekey replay counter "@ + text::dec(frame.replay_counter as nat)
                    + " <= last accepted "@ + text::dec(self.replay_counter as nat),
            )
        } else if self.ptk is None {
            Some("PTK not derived"@)
        } else if mic != frame.key_mic@ {
            Some("group rekey MIC mismatch"@)
        } else if frame.key_data@.len() == 0 {
            Some("group rekey carries no key data"@)
        } else {
            match self.clear_data(frame) {
                Err(msg) => Some(msg),
                Ok(plain) => if self.channel_error(plain) is Some {
                    self.channel_error(plain)
                } else if key_data_kdes(plain).gtk is None {
                    Some("no GTK KDE in group rekey"@)
                } else {
                    None
                },
            }
        }
    }

    /// A state in which no message has been seen yet, with a given SNonce.
    pub fn with_snonce(
        pmk: &[u8; 32],
        mic_alg: MicAlg,
        mac_sta: [u8; 6],
        mac_ap: [u8; 6],
        rsne: Vec<u8>,
        ap_rsne: Vec<u8>,
        ap_rsnxe: Vec<u8>,
        ft_pmk_r1: Option<ft::PmkR1>,
        snonce: [u8; 32],
    ) -> (r: Self)
        ensures
            r.is_new(),
            r.pmk == *pmk,
            r.mic_alg == mic_alg,
            r.mac_sta == mac_sta,
            r.mac_ap == mac_ap,
            r.rsne == rsne,
            r.ap_rsne == ap_rsne,
            r.ap_rsnxe == ap_rsnxe,
            r.ft_pmk_r1 == ft_pmk_r1,
            r.snonce == snonce,
            r.ocv is None,
            !r.ext_key_id,
    {
        FourWayState {
            pmk: *pmk,
            mac_sta,
            mac_ap,
            anonce: None,
            snonce,
            ptk: None,
            replay_counter: 0,
            rsne,
            ap_rsne,
            ap_rsnxe,
            gtk: None,
            gtk_index: 0,
            mic_alg,
            desc_version: 0,
            ft_pmk_r1,
            ocv: None,
            ext_key_id: false,
            key_id: None,
        }
    }

    /// Turn Operating Channel Validation on, with our OCI and the BSS
    /// frequency, or off.
    pub fn set_ocv(&mut self, enabled: bool, oci: [u8; 3], freq_mhz: u32)
        ensures
            *final(self) == (FourWayState {
                ocv: if enabled {
                    Some(Ocv { oci, freq_mhz })
                } else {
                    None
                },
                ..*old(self)
            }),
    {
        self.ocv = if enabled {
            Some(Ocv { oci, freq_mhz })
        } else {
            None
        };
    }

    /// Turn Extended Key ID on or off.
    pub fn set_ext_key_id(&mut self, enabled: bool)
        ensures
            *final(self) == (FourWayState { ext_key_id: enabled, ..*old(self) }),
    {
        self.ext_key_id = enabled;
    }

    /// The pairwise key id that the AP selected in Message 3 (Extended Key
    /// ID).
    pub fn key_id(&self) -> (r: Option<u8>)
        ensures
            r == self.key_id,
    {
        self.key_id
    }

    /// Create the 4-way handshake state, recording the AP's RSNE/RSNXE from
    /// the beacon/probe response so Message 3 can be validated against them
    /// (RSNE downgrade protection, 802.11-2020 §12.7.6.4). Empty `ap_rsne`
    /// disables the downgrade check. The SNonce is random; the error is that
    /// the system gave no randomness.
    pub fn new_with_ap_ies(
        pmk: &[u8; 32],
        mic_alg: MicAlg,
        mac_sta: [u8; 6],
        mac_ap: [u8; 6],
        rsne: Vec<u8>,
        ap_rsne: Vec<u8>,
        ap_rsnxe: Vec<u8>,
    ) -> (r: Result<Self, WifiError>)
        ensures
            match r {
                Ok(s) => {
                    &&& s.is_new()
                    &&& s.pmk == *pmk
                    &&& s.mic_alg == mic_alg
                    &&& s.mac_sta == mac_sta
                    &&& s.mac_ap == mac_ap
                    &&& s.rsne == rsne
                    &&& s.ap_rsne == ap_rsne
                    &&& s.ap_rsnxe == ap_rsnxe
                    &&& s.ft_pmk_r1 is None
                    &&& s.ocv is None
                    &&& !s.ext_key_id
                },
                Err(e) => e.is(ErrorKind::HandshakeFailed, "RNG"@),
            },
    {
        match primitives::random_32() {
            Some(snonce) => Ok(
                FourWayState::with_snonce(
                    pmk,
                    mic_alg,
                    mac_sta,
                    mac_ap,
                    rsne,
                    ap_rsne,
                    ap_rsnxe,
                    None,
                    snonce,
                ),
            ),
            None => Err(WifiError::new(ErrorKind::HandshakeFailed, "RNG")),
        }
    }

    /// 4-way state for an initial association with an FT AKM (FT-PSK /
    /// FT-SAE): the PTK is derived from PMK-R1 (which itself comes from
    /// PMK-R0 over the R1KH of the associated AP), and the MIC uses AES-CMAC
    /// regardless of the underlying PSK (802.11-2020 §12.8).
    pub fn new_ft(
        ft_pmk_r1: ft::PmkR1,
        mac_sta: [u8; 6],
        mac_ap: [u8; 6],
        rsne: Vec<u8>,
        ap_rsne: Vec<u8>,
        ap_rsnxe: Vec<u8>,
    ) -> (r: Result<Self, WifiError>)
        ensures
            match r {
                Ok(s) => {
                    &&& s.is_new()
                    &&& s.pmk@ == bytes::zeros(32)
                    &&& s.mic_alg == MicAlg::AesCmac
                    &&& s.mac_sta == mac_sta
                    &&& s.mac_ap == mac_ap
                    &&& s.rsne == rsne
                    &&& s.ap_rsne == ap_rsne
                    &&& s.ap_rsnxe == ap_rsnxe
                    &&& s.ft_pmk_r1 == Some(ft_pmk_r1)
                    &&& s.ocv is None
                    &&& !s.ext_key_id
                },
                Err(e) => e.is(ErrorKind::HandshakeFailed, "RNG"@),
            },
    {
        let pmk: [u8; 32] = [0u8; 32];
        assert(pmk@ =~= bytes::zeros(32));
        match primitives::random_32() {
            Some(snonce) => Ok(
                FourWayState::with_snonce(
                    &pmk,
                    MicAlg::AesCmac,
                    mac_sta,
                    mac_ap,
                    rsne,
                    ap_rsne,
                    ap_rsnxe,
                    Some(ft_pmk_r1),
                    snonce,
                ),
            ),
            None => Err(WifiError::new(ErrorKind::HandshakeFailed, "RNG")),
        }
    }

    /// Derive the pairwise transient key from the nonces at hand.
    pub fn derive_ptk(&self) -> (r: [u8; PTK_LEN])
        requires
            self.anonce is Some,
        ensures
            r@ == self.ptk_value(),
    {
        let anonce = self.anonce.unwrap();
        // FT: PTK = KDF-SHA256(PMK-R1, "FT-PTK", SNonce || ANonce || BSSID ||
        // STA-ADDR); the operand order is fixed by the standard.
        if let Some(pmk_r1) = &self.ft_pmk_r1 {
            return ft::derive_ft_ptk(pmk_r1, &self.snonce, &anonce, self.mac_ap, self.mac_sta);
        }
        let mut context: Vec<u8> = Vec::new();
        if u64_from_mac(&self.mac_ap) < u64_from_mac(&self.mac_sta) {
            bytes::append(&mut context, &self.mac_ap);
            bytes::append(&mut context, &self.mac_sta);
        } else {
            bytes::append(&mut context, &self.mac_sta);
            bytes::append(&mut context, &self.mac_ap);
        }
        if bytes::less(&anonce, &self.snonce) {
            bytes::append(&mut context, &anonce);
            bytes::append(&mut context, &self.snonce);
        } else {
            bytes::append(&mut context, &self.snonce);
            bytes::append(&mut context, &anonce);
        }
        assert(context@ =~= ptk_context(self.mac_ap@, self.mac_sta@, anonce@, self.snonce@));
        let data = match self.mic_alg {
            MicAlg::HmacSha1 => kdf::prf_sha1(
                &self.pmk,
                "Pairwise key expansion",
                context.as_slice(),
                PTK_LEN,
            ),
            _ => kdf::kdf(&self.pmk, "Pairwise key expansion", context.as_slice(), PTK_LEN),
        };
        let r = bytes::array48(data.as_slice(), 0);
        assert(r@ =~= data@);
        r
    }

    /// The key confirmation key, once the PTK is derived.
    pub fn kck(&self) -> (r: Option<[u8; KCK_LEN]>)
        ensures
            r is Some <==> self.ptk is Some,
            r matches Some(k) ==> k@ == self.spec_kck(),
    {
        match &self.ptk {
            Some(p) => Some(bytes::array16(p, 0)),
            None => None,
        }
    }

    /// The key encryption key, once the PTK is derived.
    pub fn kek(&self) -> (r: Option<[u8; KEK_LEN]>)
        ensures
            r is Some <==> self.ptk is Some,
            r matches Some(k) ==> k@ == self.spec_kek(),
    {
        match &self.ptk {
            Some(p) => Some(bytes::array16(p, 16)),
            None => None,
        }
    }

    /// The replay counter as it stands on the wire.
    pub fn replay_counter_bytes(&self) -> (r: [u8; 8])
        ensures
            r@ == bytes::be64_bytes(self.replay_counter),
    {
        bytes::be64_array(self.replay_counter)
    }

    /// The temporal key, once the PTK is derived.
    pub fn tk(&self) -> (r: Option<[u8; TK_LEN]>)
        ensures
            r is Some <==> self.ptk is Some,
            r matches Some(k) ==> k@ == self.spec_tk(),
    {
        match &self.ptk {
            Some(p) => Some(bytes::array16(p, 32)),
            None => None,
        }
    }

    /// The group key, once one was delivered.
    pub fn gtk(&self) -> (r: Option<&[u8]>)
        ensures
            match r {
                Some(g) => opt_bytes(self.gtk) == Some(g@),
                None => self.gtk is None,
            },
    {
        match &self.gtk {
            Some(g) => Some(g.as_slice()),
            None => None,
        }
    }

    pub fn gtk_index(&self) -> (r: u8)
        ensures
            r == self.gtk_index,
    {
        self.gtk_index
    }

    /// Process Message 1 of the 4-way handshake (from AP, contains ANonce).
    /// Returns the serialized Message 2 PDU to send back. Message 2 echoes
    /// the AP's replay counter (802.11-2020 §12.7.6.2).
    ///
    /// A fresh SNonce is drawn for every Message 1: this covers both the
    /// initial handshake and an AP-initiated PTK rekey, which arrives as a
    /// new Message 1 mid-connection and must not reuse the old SNonce. The
    /// error is that the system gave no randomness; then nothing changes.
    pub fn process_message_1(
        &mut self,
        anonce: &[u8; 32],
        replay_counter: u64,
        key_info: u16,
    ) -> (r: Result<Vec<u8>, WifiError>)
        ensures
            final(self).message_1_processed(
                *old(self),
                *anonce,
                replay_counter,
                key_info,
                final(self).snonce,
                r,
            ) || (r is Err && r->Err_0.is(ErrorKind::HandshakeFailed, "RNG"@) && *final(self)
                == *old(self)),
    {
        match primitives::random_32() {
            Some(snonce) => self.process_message_1_with(anonce, replay_counter, key_info, snonce),
            None => Err(WifiError::new(ErrorKind::HandshakeFailed, "RNG")),
        }
    }

    /// Whether this is `before` after a Message 1 with the given fields,
    /// under the SNonce that this state holds.
    pub open spec fn answers_message_1(
        self,
        before: Self,
        anonce: [u8; 32],
        replay_counter: u64,
        key_info: u16,
    ) -> bool {
        &&& self == (FourWayState {
            anonce: Some(anonce),
            snonce: self.snonce,
            replay_counter,
            desc_version: key_info & eapol::KEY_INFO_DESC_TYPE_MASK,
            ptk: self.ptk,
            ..before
        })
        &&& self.ptk matches Some(ptk) && ptk@ == self.ptk_value()
    }

    /// Take in Message 1 under a given SNonce: derive the PTK and build Message
    /// 2 with its MIC zero.
    pub fn prepare_message_2(
        &mut self,
        anonce: &[u8; 32],
        replay_counter: u64,
        key_info: u16,
        snonce: [u8; 32],
    ) -> (r: Vec<u8>)
        ensures
            final(self).answers_message_1(*old(self), *anonce, replay_counter, key_info),
            final(self).snonce == snonce,
            r@ == eapol::message_2_pdu(
                snonce@,
                replay_counter,
                old(self).message_2_key_data(),
                key_info & eapol::KEY_INFO_DESC_TYPE_MASK,
            ),
    {
        self.snonce = snonce;
        self.anonce = Some(*anonce);
        self.replay_counter = replay_counter;
        // Echo the Key Descriptor Version the AP negotiated in Message 1: 0
        // (AKM-defined) for SAE/OWE, 2 (HMAC-SHA1) for WPA2-PSK and 3
        // (AES-128-CMAC) for FT-PSK (802.11-2020 §12.7.2); hostapd rejects a
        // Message 2 that uses another version.
        self.desc_version = eapol::desc_version(key_info);
        let ptk = self.derive_ptk();
        self.ptk = Some(ptk);
        let mut key_data = bytes::to_vec(self.rsne.as_slice());
        if let Some(o) = &self.ocv {
            let kde = ocv::build_oci_kde(&o.oci);
            bytes::append(&mut key_data, kde.as_slice());
        }
        assert(key_data@ =~= self.message_2_key_data());
        eapol::build_message_2_with_version(
            &self.snonce,
            self.replay_counter,
            key_data.as_slice(),
            self.desc_version,
        )
    }

    /// Whether this and `r` are what processing a Message 1 under a given
    /// SNonce makes of `before`.
    pub open spec fn message_1_processed(
        self,
        before: Self,
        anonce: [u8; 32],
        replay_counter: u64,
        key_info: u16,
        snonce: [u8; 32],
        r: Result<Vec<u8>, WifiError>,
    ) -> bool {
        &&& self.answers_message_1(before, anonce, replay_counter, key_info)
        &&& self.snonce == snonce
        &&& r matches Ok(msg2)
        &&& is_sealed(
            msg2@,
            before.mic_alg,
            self.spec_kck(),
            eapol::message_2_pdu(
                snonce@,
                replay_counter,
                before.message_2_key_data(),
                key_info & eapol::KEY_INFO_DESC_TYPE_MASK,
            ),
        )
    }

    /// Process Message 1 under a given SNonce.
    pub fn process_message_1_with(
        &mut self,
        anonce: &[u8; 32],
        replay_counter: u64,
        key_info: u16,
        snonce: [u8; 32],
    ) -> (r: Result<Vec<u8>, WifiError>)
        ensures
            final(self).message_1_processed(
                *old(self),
                *anonce,
                replay_counter,
                key_info,
                snonce,
                r,
            ),
    {
        let msg2 = self.prepare_message_2(anonce, replay_counter, key_info, snonce);
        match self.kck() {
            Some(kck) => seal(self.mic_alg, &kck, msg2),
            None => Err(WifiError::new(ErrorKind::HandshakeFailed, "PTK not derived")),
        }
    }

    /// RSNE / RSNXE downgrade check for Message 3. Skipped when no AP RSNE
    /// was recorded.
    fn validate_ap_ies(&self, kdes: &KeyDataKdes) -> (r: Result<(), WifiError>)
        ensures
            match r {
                Ok(()) => downgrade_error(
                    self.ft_pmk_r1 is Some,
                    self.ap_rsne@,
                    self.ap_rsnxe@,
                    kdes@,
                ) is None,
                Err(e) => e.kind == ErrorKind::HandshakeFailed && e.iface_name is None
                    && downgrade_error(
                    self.ft_pmk_r1 is Some,
                    self.ap_rsne@,
                    self.ap_rsnxe@,
                    kdes@,
                ) == Some(e.msg@),
            },
    {
        if self.ap_rsne.len() == 0 {
            return Ok(());
        }
        let rsne = match &kdes.rsne {
            Some(rsne) => rsne,
            None => {
                return Err(
                    WifiError::new(
                        ErrorKind::HandshakeFailed,
                        "Message 3 key data carries no RSNE",
                    ),
                );
            },
        };
        // FT AKMs append PMKR1Name as the RSNE's PMKID in Message 3, which the
        // beacon RSNE lacks; compare while ignoring the PMKID list there.
        let rsne_ok = if self.ft_pmk_r1.is_some() {
            elements::rsne_match_ignore_pmkid(rsne.as_slice(), self.ap_rsne.as_slice())
        } else {
            bytes::same(rsne.as_slice(), self.ap_rsne.as_slice())
        };
        if !rsne_ok {
            let mut msg = text::text("RSNE downgrade detected: Message 3 RSNE ");
            text::push_hex_list(&mut msg, rsne.as_slice());
            msg.append(" differs from beacon RSNE ");
            text::push_hex_list(&mut msg, self.ap_rsne.as_slice());
            return Err(WifiError::new(ErrorKind::HandshakeFailed, msg.as_str()));
        }
        if self.ap_rsnxe.len() > 0 {
            let rsnxe_ok = match &kdes.rsnxe {
                Some(x) => bytes::same(x.as_slice(), self.ap_rsnxe.as_slice()),
                None => false,
            };
            if !rsnxe_ok {
                let mut msg = text::text("RSNXE downgrade detected: Message 3 RSNXE ");
                match &kdes.rsnxe {
                    Some(x) => {
                        let ghost before = msg@;
                        msg.append("Some(");
                        text::push_hex_list(&mut msg, x.as_slice());
                        msg.append(")");
                        assert(msg@ =~= before + opt_hex_text(Some(x@)));
                    },
                    None => {
                        msg.append("None");
                    },
                }
                msg.append(" differs from beacon RSNXE ");
                text::push_hex_list(&mut msg, self.ap_rsnxe.as_slice());
                return Err(WifiError::new(ErrorKind::HandshakeFailed, msg.as_str()));
            }
        }
        Ok(())
    }

    /// The channel check on key data in the clear. Skipped without Operating
    /// Channel Validation.
    fn validate_channel(&self, plain: &[u8]) -> (r: Result<(), WifiError>)
        ensures
            match self.channel_error(plain@) {
                None => r is Ok,
                Some(msg) => r matches Err(e) && e.is(ErrorKind::HandshakeFailed, msg),
            },
    {
        match &self.ocv {
            Some(o) => ocv::verify_oci(plain, o.freq_mhz),
            None => Ok(()),
        }
    }

    /// The key data of a frame in the clear.
    fn clear_key_data(&self, kek: &[u8; KEK_LEN], frame: &eapol::EapolKeyFrame) -> (r: Result<
        Vec<u8>,
        WifiError,
    >)
        ensures
            match r {
                Ok(plain) => plain_key_data(kek@, frame.key_info, frame.key_data@) == Ok::<
                    Seq<u8>,
                    Seq<char>,
                >(plain@),
                Err(e) => e.kind == ErrorKind::HandshakeFailed && e.iface_name is None
                    && plain_key_data(kek@, frame.key_info, frame.key_data@) == Err::<
                    Seq<u8>,
                    Seq<char>,
                >(e.msg@),
            },
    {
        if frame.key_data.len() > 0 && frame.is_encrypted_data() {
            aes_key_unwrap(kek, frame.key_data.as_slice())
        } else {
            Ok(bytes::to_vec(frame.key_data.as_slice()))
        }
    }

    /// Whether this is `before` after an accepted Message 3: the group key it
    /// delivers is taken and, with Extended Key ID, the key id it names.
    pub open spec fn takes_message_3(self, before: Self, frame: eapol::EapolKeyFrame) -> bool {
        let kdes = before.frame_kdes(frame);
        &&& self == (FourWayState {
            replay_counter: frame.replay_counter,
            gtk: self.gtk,
            gtk_index: self.gtk_index,
            key_id: if before.ext_key_id {
                kdes.key_id
            } else {
                None
            },
            ..before
        })
        &&& self.takes_gtk(before, kdes.gtk)
    }

    /// Whether this is `before` after an accepted group key handshake Message
    /// 1: the group key it delivers is taken.
    pub open spec fn takes_group_key(self, before: Self, frame: eapol::EapolKeyFrame) -> bool {
        &&& self == (FourWayState {
            replay_counter: frame.replay_counter,
            gtk: self.gtk,
            gtk_index: self.gtk_index,
            ..before
        })
        &&& self.takes_gtk(before, before.frame_kdes(frame).gtk)
    }

    /// Whether this and `r` are what processing a Message 3 makes of `before`:
    /// it is accepted exactly where there is nothing wrong with it.
    pub open spec fn message_3_processed(
        self,
        before: Self,
        frame: eapol::EapolKeyFrame,
        r: Result<(Vec<u8>, KeyDataKdes), WifiError>,
    ) -> bool {
        match before.message_3_error(frame) {
            None => {
                &&& r matches Ok((msg4, kdes))
                &&& self.takes_message_3(before, frame)
                &&& kdes@ == before.frame_kdes(frame)
                &&& is_sealed(
                    msg4@,
                    before.mic_alg,
                    before.spec_kck(),
                    eapol::message_4_pdu(
                        before.snonce@,
                        frame.replay_counter,
                        before.desc_version,
                    ),
                )
            },
            Some(msg) => {
                &&& r matches Err(e)
                &&& e.is(ErrorKind::HandshakeFailed, msg)
                &&& self == if frame.replay_counter < before.replay_counter {
                    before
                } else {
                    FourWayState { replay_counter: frame.replay_counter, ..before }
                }
            },
        }
    }

    /// Whether this and `r` are what processing a group key handshake Message 1
    /// makes of `before`: it is accepted exactly where there is nothing wrong
    /// with it.
    pub open spec fn group_rekey_processed(
        self,
        before: Self,
        frame: eapol::EapolKeyFrame,
        r: Result<Vec<u8>, WifiError>,
    ) -> bool {
        match before.group_rekey_error(frame) {
            None => {
                &&& r matches Ok(msg2)
                &&& self.takes_group_key(before, frame)
                &&& is_sealed(
                    msg2@,
                    before.mic_alg,
                    before.spec_kck(),
                    eapol::group_message_2_pdu(
                        frame.replay_counter,
                        frame.key_rsc@,
                        frame.key_info & eapol::KEY_INFO_DESC_TYPE_MASK,
                    ),
                )
            },
            Some(msg) => {
                &&& r matches Err(e)
                &&& e.is(ErrorKind::HandshakeFailed, msg)
                &&& self == if frame.replay_counter <= before.replay_counter {
                    before
                } else {
                    FourWayState { replay_counter: frame.replay_counter, ..before }
                }
            },
        }
    }

    /// Process Message 3 of the 4-way handshake.
    /// Returns the Message 4 PDU and the KDEs parsed from the (decrypted)
    /// key data: the GTK plus, on PMF-enabled APs, the IGTK / BIGTK and the
    /// AP's RSNE / RSNXE (validated against the beacon copy for downgrade
    /// protection before returning).
    pub fn process_message_3(&mut self, frame: &eapol::EapolKeyFrame) -> (r: Result<
        (Vec<u8>, KeyDataKdes),
        WifiError,
    >)
        ensures
            final(self).message_3_processed(*old(self), *frame, r),
    {
        // The MIC over the received PDU with the MIC field zeroed.
        let mic: [u8; EAPOL_MIC_LEN] = match self.kck() {
            Some(kck) if frame.replay_counter >= self.replay_counter => {
                let zeroed = eapol::pdu_with_zeroed_mic(frame.raw.as_slice());
                match compute_mic(self.mic_alg, &kck, zeroed.as_slice()) {
                    Ok(mic) => mic,
                    Err(e) => {
                        self.replay_counter = frame.replay_counter;
                        return Err(e);
                    },
                }
            },
            _ => [0u8; EAPOL_MIC_LEN],
        };
        let kdes = match self.take_message_3(frame, &mic) {
            Ok(kdes) => kdes,
            Err(e) => {
                return Err(e);
            },
        };
        let msg4 = eapol::build_message_4_with_version(
            &self.snonce,
            self.replay_counter,
            self.desc_version,
        );
        match self.kck() {
            Some(kck) => match seal(self.mic_alg, &kck, msg4) {
                Ok(msg4) => Ok((msg4, kdes)),
                Err(e) => Err(e),
            },
            None => Err(WifiError::new(ErrorKind::HandshakeFailed, "PTK not derived")),
        }
    }

    /// Take in Message 3, if `mic` is the MIC that belongs in it: check it and
    /// take the keys that it delivers.
    pub fn take_message_3(&mut self, frame: &eapol::EapolKeyFrame, mic: &[u8; EAPOL_MIC_LEN]) -> (r:
        Result<KeyDataKdes, WifiError>)
        ensures
            match old(self).message_3_error_under(*frame, mic@) {
                None => {
                    &&& r matches Ok(kdes)
                    &&& kdes@ == old(self).frame_kdes(*frame)
                    &&& final(self).takes_message_3(*old(self), *frame)
                },
                Some(msg) => {
                    &&& r matches Err(e)
                    &&& e.is(ErrorKind::HandshakeFailed, msg)
                    &&& *final(self) == if frame.replay_counter < old(self).replay_counter {
                        *old(self)
                    } else {
                        FourWayState { replay_counter: frame.replay_counter, ..*old(self) }
                    }
                },
            },
    {
        // 802.11-2020 §12.7.6.4: replay counter must be >= Message 1's.
        if frame.replay_counter < self.replay_counter {
            let mut msg = text::text("Message 3 replay counter ");
            text::push_dec(&mut msg, frame.replay_counter);
            msg.append(" < Message 1 counter ");
            text::push_dec(&mut msg, self.replay_counter);
            return Err(WifiError::new(ErrorKind::HandshakeFailed, msg.as_str()));
        }
        self.replay_counter = frame.replay_counter;
        let kek = match self.kek() {
            Some(kek) => kek,
            None => {
                return Err(WifiError::new(ErrorKind::HandshakeFailed, "PTK not derived"));
            },
        };
        if !bytes::same(mic, &frame.key_mic) {
            return Err(WifiError::new(ErrorKind::HandshakeFailed, "MIC mismatch"));
        }
        // Unwrap the key data and parse its KDEs: GTK plus (with PMF) the IGTK
        // / BIGTK and the AP's RSNE / RSNXE.
        let plain = match self.clear_key_data(&kek, frame) {
            Ok(plain) => plain,
            Err(e) => {
                return Err(e);
            },
        };
        let kdes = parse_key_data_kdes(plain.as_slice());
        // Fail the handshake when the AP's RSNE / RSNXE in Message 3 are
        // missing or differ from the beacon/probe response copies
        // (802.11-2020 §12.7.6.4 downgrade protection).
        match self.validate_ap_ies(&kdes) {
            Ok(()) => {},
            Err(e) => {
                return Err(e);
            },
        }
        match self.validate_channel(plain.as_slice()) {
            Ok(()) => {},
            Err(e) => {
                return Err(e);
            },
        }
        if self.ext_key_id && kdes.key_id.is_none() {
            return Err(
                WifiError::new(
                    ErrorKind::HandshakeFailed,
                    "Extended Key ID: AP Message 3 carries no Key ID KDE",
                ),
            );
        }
        self.key_id = if self.ext_key_id {
            kdes.key_id
        } else {
            None
        };
        if let Some((idx, gtk)) = &kdes.gtk {
            self.gtk_index = *idx;
            self.gtk = Some(bytes::to_vec(gtk.as_slice()));
        }
        Ok(kdes)
    }

    /// Whether the group key is `gtk` where one is given, and that of
    /// `before` otherwise.
    pub open spec fn takes_gtk(self, before: Self, gtk: Option<(u8, Seq<u8>)>) -> bool {
        match gtk {
            Some((idx, key)) => self.gtk_index == idx && opt_bytes(self.gtk) == Some(key),
            None => self.gtk_index == before.gtk_index && self.gtk == before.gtk,
        }
    }

    /// Process a Group Key Handshake Message 1 (a GTK rekey initiated by the
    /// AP after the connection is up). Verifies the MIC with the existing
    /// KCK, unwraps the new GTK with the KEK, updates the stored GTK/index,
    /// and returns the Group Message 2 PDU to send back.
    pub fn process_group_rekey(&mut self, frame: &eapol::EapolKeyFrame) -> (r: Result<
        Vec<u8>,
        WifiError,
    >)
        ensures
            final(self).group_rekey_processed(*old(self), *frame, r),
    {
        // The MIC over the received PDU with the MIC field zeroed.
        let mic: [u8; EAPOL_MIC_LEN] = match self.kck() {
            Some(kck) if frame.replay_counter > self.replay_counter => {
                let zeroed = eapol::pdu_with_zeroed_mic(frame.raw.as_slice());
                match compute_mic(self.mic_alg, &kck, zeroed.as_slice()) {
                    Ok(mic) => mic,
                    Err(e) => {
                        self.replay_counter = frame.replay_counter;
                        return Err(e);
                    },
                }
            },
            _ => [0u8; EAPOL_MIC_LEN],
        };
        match self.take_group_key(frame, &mic) {
            Ok(()) => {},
            Err(e) => {
                return Err(e);
            },
        }
        let msg2 = eapol::build_group_message_2_with_version(
            self.replay_counter,
            &frame.key_rsc,
            eapol::desc_version(frame.key_info),
        );
        match self.kck() {
            Some(kck) => seal(self.mic_alg, &kck, msg2),
            None => Err(WifiError::new(ErrorKind::HandshakeFailed, "PTK not derived")),
        }
    }

    /// Take in a Group Key Handshake Message 1, if `mic` is the MIC that belongs
    /// in it: check it and take the group key that it delivers.
    pub fn take_group_key(&mut self, frame: &eapol::EapolKeyFrame, mic: &[u8; EAPOL_MIC_LEN]) -> (r:
        Result<(), WifiError>)
        ensures
            match old(self).group_rekey_error_under(*frame, mic@) {
                None => r is Ok && final(self).takes_group_key(*old(self), *frame),
                Some(msg) => {
                    &&& r matches Err(e)
                    &&& e.is(ErrorKind::HandshakeFailed, msg)
                    &&& *final(self) == if frame.replay_counter <= old(self).replay_counter {
                        *old(self)
                    } else {
                        FourWayState { replay_counter: frame.replay_counter, ..*old(self) }
                    }
                },
            },
    {
        // 802.11-2020 §12.7.7.1: replay counter must be strictly greater than
        // the last accepted value.
        if frame.replay_counter <= self.replay_counter {
            let mut msg = text::text("group rekey replay counter ");
            text::push_dec(&mut msg, frame.replay_counter);
            msg.append(" <= last accepted ");
            text::push_dec(&mut msg, self.replay_counter);
            return Err(WifiError::new(ErrorKind::HandshakeFailed, msg.as_str()));
        }
        self.replay_counter = frame.replay_counter;
        let kek = match self.kek() {
            Some(kek) => kek,
            None => {
                return Err(WifiError::new(ErrorKind::HandshakeFailed, "PTK not derived"));
            },
        };
        if !bytes::same(mic, &frame.key_mic) {
            return Err(WifiError::new(ErrorKind::HandshakeFailed, "group rekey MIC mismatch"));
        }
        if frame.key_data.len() == 0 {
            return Err(
                WifiError::new(ErrorKind::HandshakeFailed, "group rekey carries no key data"),
            );
        }
        let plain = match self.clear_key_data(&kek, frame) {
            Ok(plain) => plain,
            Err(e) => {
                return Err(e);
            },
        };
        match self.validate_channel(plain.as_slice()) {
            Ok(()) => {},
            Err(e) => {
                return Err(e);
            },
        }
        match parse_gtk_kde(plain.as_slice()) {
            Some((idx, gtk)) => {
                self.gtk_index = idx;
                self.gtk = Some(gtk);
            },
            None => {
                return Err(
                    WifiError::new(ErrorKind::HandshakeFailed, "no GTK KDE in group rekey"),
                );
            },
        }
        Ok(())
    }
}

/// Both ends of a handshake derive one PTK: the context does not depend on
/// which address and nonce is whose.
pub proof fn law_ptk_context_symmetric(
    mac_a: Seq<u8>,
    mac_b: Seq<u8>,
    nonce_a: Seq<u8>,
    nonce_b: Seq<u8>,
)
    requires
        mac_a.len() == 6,
        mac_b.len() == 6,
        nonce_a.len() == 32,
        nonce_b.len() == 32,
    ensures
        ptk_context(mac_a, mac_b, nonce_a, nonce_b) == ptk_context(mac_b, mac_a, nonce_b, nonce_a),
{
    bytes::lemma_lex_less_total(nonce_a, nonce_b);
    if bytes::be_nat(mac_a) == bytes::be_nat(mac_b) {
        bytes::lemma_be_nat_injective(mac_a, mac_b);
    }
}

/// A sealed PDU passes the MIC check of a receiver with the same key: the
/// MIC it carries is the one that belongs in it.
pub proof fn law_sealed_pdu_verifies(alg: MicAlg, kck: Seq<u8>, pdu: Seq<u8>, out: Seq<u8>)
    requires
        pdu.len() >= eapol::OFF_DATA,
        is_sealed(out, alg, kck, pdu),
    ensures
        pdu_mic(alg, kck, out) == out.subrange(81, 97),
{
    eapol::law_zeroed_mic_ignores_mic(pdu, pdu_mic(alg, kck, pdu));
}

/// Downgrade protection: where the AP's advertised RSNE is known, a Message 3
/// is refused unless it carries that RSNE (with an FT AKM, up to its PMKIDs)
/// and, where the AP advertises one, that RSNXE.
pub proof fn law_downgrade_refused(
    before: FourWayState,
    after: FourWayState,
    frame: eapol::EapolKeyFrame,
    r: Result<(Vec<u8>, KeyDataKdes), WifiError>,
)
    requires
        before.ap_rsne@.len() > 0,
        after.message_3_processed(before, frame, r),
        r is Ok,
    ensures
        ({
            let kdes = before.frame_kdes(frame);
            &&& kdes.rsne matches Some(rsne)
            &&& if before.ft_pmk_r1 is Some {
                elements::rsne_same_but_pmkids(rsne, before.ap_rsne@)
            } else {
                rsne == before.ap_rsne@
            }
            &&& before.ap_rsnxe@.len() > 0 ==> kdes.rsnxe == Some(before.ap_rsnxe@)
        }),
{
}

/// Operating Channel Validation: where it is on, neither a Message 3 nor a
/// group key message is accepted unless its key data names the channel of the
/// BSS.
pub proof fn law_other_channel_refused(
    before: FourWayState,
    after: FourWayState,
    frame: eapol::EapolKeyFrame,
    handshake: Result<(Vec<u8>, KeyDataKdes), WifiError>,
    rekey: Result<Vec<u8>, WifiError>,
)
    requires
        before.ocv is Some,
        after.message_3_processed(before, frame, handshake) && handshake is Ok
            || after.group_rekey_processed(before, frame, rekey) && rekey is Ok,
    ensures
        ({
            let list = tlv::elements_from(before.clear_data(frame)->Ok_0, 0);
            &&& ocv::first_oci(list) matches Some(oci)
            &&& ocv::oci_of_freq(before.ocv->0.freq_mhz) matches Some(own)
            &&& oci[1] == own[1]
        }),
{
}

/// Extended Key ID: where it is on, an accepted Message 3 names the pairwise
/// key id, and the state holds that id.
pub proof fn law_key_id_is_named(
    before: FourWayState,
    after: FourWayState,
    frame: eapol::EapolKeyFrame,
    r: Result<(Vec<u8>, KeyDataKdes), WifiError>,
)
    requires
        after.message_3_processed(before, frame, r),
        r is Ok,
    ensures
        before.ext_key_id ==> after.key_id is Some && after.key_id == before.frame_kdes(
            frame,
        ).key_id,
        !before.ext_key_id ==> after.key_id is None,
{
}

/// The replay counter never falls, whatever a Message 3 or a group key message
/// holds and whether it is accepted.
pub proof fn law_replay_counter_never_falls(
    before: FourWayState,
    after: FourWayState,
    frame: eapol::EapolKeyFrame,
    handshake: Result<(Vec<u8>, KeyDataKdes), WifiError>,
    rekey: Result<Vec<u8>, WifiError>,
)
    requires
        after.message_3_processed(before, frame, handshake) || after.group_rekey_processed(
            before,
            frame,
            rekey,
        ),
    ensures
        after.replay_counter >= before.replay_counter,
{
}

/// A group key message that is sent again, or one from before it, is refused
/// and changes nothing: once a message was accepted, a later one needs a
/// higher counter.
pub proof fn law_replayed_group_key_is_refused(
    before: FourWayState,
    after: FourWayState,
    again: FourWayState,
    frame: eapol::EapolKeyFrame,
    replayed: eapol::EapolKeyFrame,
    first: Result<Vec<u8>, WifiError>,
    second: Result<Vec<u8>, WifiError>,
)
    requires
        after.group_rekey_processed(before, frame, first),
        first is Ok,
        replayed.replay_counter <= frame.replay_counter,
        again.group_rekey_processed(after, replayed, second),
    ensures
        second is Err,
        again == after,
{
}

/// Keys are only taken from a message that the AP authenticated: where a
/// message is refused for its counter or its MIC, the group key stays.
pub proof fn law_unauthenticated_keys_are_not_taken(
    before: FourWayState,
    after: FourWayState,
    frame: eapol::EapolKeyFrame,
    handshake: Result<(Vec<u8>, KeyDataKdes), WifiError>,
    rekey: Result<Vec<u8>, WifiError>,
)
    requires
        after.message_3_processed(before, frame, handshake) || after.group_rekey_processed(
            before,
            frame,
            rekey,
        ),
        before.ptk is None || before.frame_mic(frame) != frame.key_mic@,
    ensures
        after.gtk == before.gtk,
        after.gtk_index == before.gtk_index,
        after.ptk == before.ptk,
{
}

/// What a key data field carries of each kind is what its last element of
/// that kind says: more elements of other kinds change nothing.
pub proof fn law_last_kde_wins(list: Seq<tlv::Element>, e: tlv::Element)
    ensures
        kdes_of(list.push(e)) == with_element(kdes_of(list), e),
        !is_rsn_kde(e) && !is_wfa_kde(e) && e.id != elements::IE_ID_RSNE && e.id
            != elements::IE_ID_RSNXE ==> kdes_of(list.push(e)) == kdes_of(list),
{
    assert(list.push(e).drop_last() =~= list);
}

} // verus!
