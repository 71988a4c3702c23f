//! Information elements: searching element lists, the RSN element and its
//! builders, and the elements of Fast BSS Transition.

use vstd::prelude::*;
use vstd::string::*;

use netlink_packet_core::Emitable;
use wl_nl80211::{
    Ieee80211Element, Ieee80211ElementRsn, Ieee80211ElementRsnExt, Ieee80211Elements,
    Ieee80211Pmkid, Ieee80211RsnCapbilities, Ieee80211RsnExtCapbilities,
};

use crate::bytes;
use crate::crypto::ft;
use crate::crypto::handshake4;
use crate::crypto::primitives;
use crate::error::{ErrorKind, WifiError};
use crate::ieee80211::tlv;
use crate::text;

verus! {

/// Element ID of the Mobility Domain element (802.11-2020 §9.4.2.47).
pub const IE_ID_MDIE: u8 = 54;

/// Element ID of the Fast BSS Transition element (802.11-2020 §9.4.2.48).
pub const IE_ID_FTIE: u8 = 55;

/// Element ID of the RSNE (802.11-2020 §9.4.2.25).
pub const IE_ID_RSNE: u8 = 48;

/// Element ID of the RSNXE (802.11-2020 §9.4.2.25a).
pub const IE_ID_RSNXE: u8 = 244;

/// Find an element in an IE buffer and return the offset of its ID octet.
pub fn find_ie_pos(ies: &[u8], id: u8) -> (r: Option<usize>)
    ensures
        match r {
            Some(pos) => tlv::offset_from(ies@, 0, id) == Some(pos as int),
            None => tlv::offset_from(ies@, 0, id) is None,
        },
{
    let mut pos: usize = 0;
    loop
        invariant
            pos <= ies@.len(),
            tlv::offset_from(ies@, 0, id) == tlv::offset_from(ies@, pos as int, id),
        decreases ies@.len() - pos,
    {
        match tlv::next_end(ies, pos) {
            None => {
                return None;
            },
            Some(end) => {
                if ies[pos] == id {
                    return Some(pos);
                }
                pos = end;
            },
        }
    }
}

/// Find an element in an IE buffer and return its body (without the
/// ID/length header).
pub fn find_ie(ies: &[u8], id: u8) -> (r: Option<&[u8]>)
    ensures
        match r {
            Some(body) => tlv::first_with(tlv::elements_from(ies@, 0), id) matches Some(e)
                && body@ == e.body,
            None => tlv::first_with(tlv::elements_from(ies@, 0), id) is None,
        },
{
    proof {
        tlv::lemma_offset_is_first(ies@, 0, id);
    }
    match find_ie_pos(ies, id) {
        Some(pos) => {
            assert(pos + 2 <= ies.len());
            let len: usize = ies[pos + 1] as usize;
            Some(vstd::slice::slice_subrange(ies, pos + 2, pos + 2 + len))
        },
        None => None,
    }
}

/// The full RSNE element (ID + length + body) at `pos`, as returned by
/// [`find_ie_pos`].
pub fn ie_at(ies: &[u8], pos: usize) -> (r: &[u8])
    requires
        tlv::complete_at(ies@, pos as int),
    ensures
        r@ == ies@.subrange(pos as int, tlv::end_at(ies@, pos as int)),
        r@ == seq![ies@[pos as int], tlv::element_at(ies@, pos as int).body.len() as u8]
            + tlv::element_at(ies@, pos as int).body,
{
    assert(pos + 2 <= ies.len());
    let len: usize = ies[pos + 1] as usize;
    let r = vstd::slice::slice_subrange(ies, pos, pos + 2 + len);
    assert(r@ =~= seq![ies@[pos as int], tlv::element_at(ies@, pos as int).body.len() as u8]
        + tlv::element_at(ies@, pos as int).body);
    r
}

/// Where the AKM count of an RSNE body stands, when the body reaches that
/// far: after version (2), group cipher (4) and the pairwise ciphers.
pub open spec fn akm_offset(body: Seq<u8>) -> Option<int> {
    if body.len() < 8 {
        None
    } else {
        let off = 8 + 4 * bytes::le16(body[6], body[7]);
        if body.len() < off + 2 {
            None
        } else {
            Some(off)
        }
    }
}

/// Where the RSN capabilities of an RSNE body stand, when its AKM count is
/// there: after the AKM list, which may itself be cut short.
pub open spec fn capabilities_offset(body: Seq<u8>) -> Option<int> {
    match akm_offset(body) {
        Some(off) => Some(off + 2 + 4 * bytes::le16(body[off], body[off + 1])),
        None => None,
    }
}

/// The RSN capabilities of an RSNE body, if present.
pub open spec fn capabilities(body: Seq<u8>) -> Option<u16> {
    match capabilities_offset(body) {
        Some(off) => if body.len() < off + 2 {
            None
        } else {
            Some(bytes::le16(body[off], body[off + 1]))
        },
        None => None,
    }
}

/// The first PMKID of an RSNE body, if it carries one.
pub open spec fn first_pmkid(body: Seq<u8>) -> Option<Seq<u8>> {
    match capabilities_offset(body) {
        Some(cap) => {
            let off = cap + 2;
            if body.len() < off + 2 || bytes::le16(body[off], body[off + 1]) == 0 || body.len()
                < off + 18 {
                None
            } else {
                Some(body.subrange(off + 2, off + 18))
            }
        },
        None => None,
    }
}

/// The group management cipher suite selector of an RSNE body, if present.
pub open spec fn group_mgmt_selector(body: Seq<u8>) -> Option<u32> {
    match capabilities_offset(body) {
        Some(cap) => {
            let off = cap + 2;
            if body.len() < off + 2 {
                None
            } else {
                let at = off + 2 + 16 * bytes::le16(body[off], body[off + 1]);
                if body.len() < at + 4 {
                    None
                } else {
                    Some(bytes::le32(body[at], body[at + 1], body[at + 2], body[at + 3]))
                }
            }
        },
        None => None,
    }
}

/// An RSNE body without its PMKID list; none where the body is cut short
/// before the end of that list.
pub open spec fn without_pmkids(body: Seq<u8>) -> Option<Seq<u8>> {
    match capabilities_offset(body) {
        None => None,
        Some(cap) => if body.len() < cap {
            None
        } else if body.len() < cap + 2 {
            Some(body.subrange(0, cap))
        } else if body.len() < cap + 4 {
            Some(body)
        } else {
            let end = cap + 4 + 16 * bytes::le16(body[cap + 2], body[cap + 3]);
            if body.len() < end {
                None
            } else {
                Some(body.subrange(0, cap + 2) + body.subrange(end, body.len() as int))
            }
        },
    }
}

/// The body of the RSNE in a buffer; the buffer itself where it holds none.
pub open spec fn rsne_body(ies: Seq<u8>) -> Seq<u8> {
    match tlv::first_with(tlv::elements_from(ies, 0), IE_ID_RSNE) {
        Some(e) => e.body,
        None => ies,
    }
}

/// Whether two RSNEs say the same, their PMKID lists aside.
pub open spec fn rsne_same_but_pmkids(a: Seq<u8>, b: Seq<u8>) -> bool {
    match (without_pmkids(rsne_body(a)), without_pmkids(rsne_body(b))) {
        (Some(x), Some(y)) => x == y,
        _ => rsne_body(a) == rsne_body(b),
    }
}

/// Where the RSN capabilities of an RSNE body stand.
fn find_capabilities(body: &[u8]) -> (r: Option<usize>)
    ensures
        match r {
            Some(off) => capabilities_offset(body@) == Some(off as int) && off <= 0x8_0010,
            None => capabilities_offset(body@) is None,
        },
{
    if body.len() < 8 {
        return None;
    }
    let pcount: usize = bytes::read_le16(body, 6) as usize;
    let off: usize = 8 + pcount * 4;
    if body.len() < off + 2 {
        return None;
    }
    let acount: usize = bytes::read_le16(body, off) as usize;
    Some(off + 2 + acount * 4)
}

/// First PMKID of an RSNE body (after the element header), if the RSNE
/// carries one.
pub fn rsne_first_pmkid(body: &[u8]) -> (r: Option<[u8; 16]>)
    ensures
        match r {
            Some(pmkid) => first_pmkid(body@) == Some(pmkid@),
            None => first_pmkid(body@) is None,
        },
{
    match find_capabilities(body) {
        Some(cap) => {
            let off: usize = cap + 2;
            if body.len() < off + 2 {
                return None;
            }
            let count: u16 = bytes::read_le16(body, off);
            if count == 0 || body.len() < off + 18 {
                return None;
            }
            Some(bytes::array16(body, off + 2))
        },
        None => None,
    }
}

/// The RSN capabilities field (2 octets) of an RSNE body, if present.
pub fn rsne_capabilities_field(body: &[u8]) -> (r: Option<u16>)
    ensures
        r == capabilities(body@),
{
    match find_capabilities(body) {
        Some(cap) => {
            if body.len() < cap + 2 {
                None
            } else {
                Some(bytes::read_le16(body, cap))
            }
        },
        None => None,
    }
}

/// An RSNE body without its PMKID list.
fn strip_pmkids(body: &[u8]) -> (r: Option<Vec<u8>>)
    ensures
        match r {
            Some(v) => without_pmkids(body@) == Some(v@),
            None => without_pmkids(body@) is None,
        },
{
    match find_capabilities(body) {
        Some(cap) => {
            if body.len() < cap {
                return None;
            }
            if body.len() < cap + 2 {
                return Some(bytes::sub_vec(body, 0, cap));
            }
            if body.len() < cap + 4 {
                return Some(bytes::to_vec(body));
            }
            let count: usize = bytes::read_le16(body, cap + 2) as usize;
            let end: usize = cap + 4 + count * 16;
            if body.len() < end {
                return None;
            }
            let mut out = bytes::sub_vec(body, 0, cap + 2);
            bytes::append(&mut out, vstd::slice::slice_subrange(body, end, body.len()));
            Some(out)
        },
        None => None,
    }
}

/// Compare two RSNE elements semantically while ignoring the PMKID list: FT
/// (Re)Association Responses carry PMKR0Name / PMKR1Name as the PMKID, which
/// the beacon RSNE lacks. Where the PMKID list of either cannot be told
/// apart, the two are compared as they are.
pub fn rsne_match_ignore_pmkid(a: &[u8], b: &[u8]) -> (r: bool)
    ensures
        r == rsne_same_but_pmkids(a@, b@),
{
    let body_a = match find_ie(a, IE_ID_RSNE) {
        Some(body) => body,
        None => a,
    };
    let body_b = match find_ie(b, IE_ID_RSNE) {
        Some(body) => body,
        None => b,
    };
    match (strip_pmkids(body_a), strip_pmkids(body_b)) {
        (Some(x), Some(y)) => bytes::same(x.as_slice(), y.as_slice()),
        _ => bytes::same(body_a, body_b),
    }
}

/// A cipher suite of the RSN element.
#[derive(Debug, Clone, Copy, PartialEq, Eq, Structural)]
pub enum CipherSuite {
    Ccmp128,
    BipCmac128,
    BipGmac128,
    BipGmac256,
    BipCmac256,
    /// Any other suite, by its selector.
    Other(u32),
}

pub const CIPHER_CCMP_128: u32 = 0x04ac_0f00;

pub const CIPHER_BIP_CMAC_128: u32 = 0x06ac_0f00;

pub const CIPHER_BIP_GMAC_128: u32 = 0x0bac_0f00;

pub const CIPHER_BIP_GMAC_256: u32 = 0x0cac_0f00;

pub const CIPHER_BIP_CMAC_256: u32 = 0x0dac_0f00;

// AKM suite selectors (OUI 00-0F-AC, then the suite type).
pub const AKM_8021X: u32 = 0x01ac_0f00;

pub const AKM_PSK: u32 = 0x02ac_0f00;

pub const AKM_FT_PSK: u32 = 0x04ac_0f00;

pub const AKM_8021X_SHA256: u32 = 0x05ac_0f00;

pub const AKM_PSK_SHA256: u32 = 0x06ac_0f00;

pub const AKM_SAE: u32 = 0x08ac_0f00;

pub const AKM_FT_SAE: u32 = 0x09ac_0f00;

pub const AKM_OWE: u32 = 0x12ac_0f00;

pub const AKM_SAE_EXT_KEY: u32 = 0x18ac_0f00;

pub const AKM_FT_SAE_EXT_KEY: u32 = 0x19ac_0f00;

/// RSN capability: management frame protection required.
pub const CAP_MFPR: u16 = 0x0040;

/// RSN capability: management frame protection capable.
pub const CAP_MFPC: u16 = 0x0080;

/// RSN capabilities of an AKM that requires management frame protection.
pub const CAPS_MFP_REQUIRED: u16 = 0x00c0;

/// RSN capability bit 13: Extended Key ID for Individually Addressed Frames.
pub const CAP_EXT_KEY_ID: u16 = 0x2000;

/// RSN capability bit 14: Operating Channel Validation.
pub const CAP_OCVC: u16 = 0x4000;

impl CipherSuite {
    /// The suite with a given selector.
    pub open spec fn spec_from_selector(x: u32) -> CipherSuite {
        if x == CIPHER_CCMP_128 {
            CipherSuite::Ccmp128
        } else if x == CIPHER_BIP_CMAC_128 {
            CipherSuite::BipCmac128
        } else if x == CIPHER_BIP_GMAC_128 {
            CipherSuite::BipGmac128
        } else if x == CIPHER_BIP_GMAC_256 {
            CipherSuite::BipGmac256
        } else if x == CIPHER_BIP_CMAC_256 {
            CipherSuite::BipCmac256
        } else {
            CipherSuite::Other(x)
        }
    }

    /// The selector of the suite, least significant octet first on the wire.
    pub open spec fn spec_selector(self) -> u32 {
        match self {
            CipherSuite::Ccmp128 => CIPHER_CCMP_128,
            CipherSuite::BipCmac128 => CIPHER_BIP_CMAC_128,
            CipherSuite::BipGmac128 => CIPHER_BIP_GMAC_128,
            CipherSuite::BipGmac256 => CIPHER_BIP_GMAC_256,
            CipherSuite::BipCmac256 => CIPHER_BIP_CMAC_256,
            CipherSuite::Other(x) => x,
        }
    }

    /// The suite with a given selector.
    pub fn from_selector(x: u32) -> (r: CipherSuite)
        ensures
            r == CipherSuite::spec_from_selector(x),
    {
        if x == CIPHER_CCMP_128 {
            CipherSuite::Ccmp128
        } else if x == CIPHER_BIP_CMAC_128 {
            CipherSuite::BipCmac128
        } else if x == CIPHER_BIP_GMAC_128 {
            CipherSuite::BipGmac128
        } else if x == CIPHER_BIP_GMAC_256 {
            CipherSuite::BipGmac256
        } else if x == CIPHER_BIP_CMAC_256 {
            CipherSuite::BipCmac256
        } else {
            CipherSuite::Other(x)
        }
    }

    /// The selector of the suite.
    pub fn selector(self) -> (r: u32)
        ensures
            r == self.spec_selector(),
    {
        match self {
            CipherSuite::Ccmp128 => CIPHER_CCMP_128,
            CipherSuite::BipCmac128 => CIPHER_BIP_CMAC_128,
            CipherSuite::BipGmac128 => CIPHER_BIP_GMAC_128,
            CipherSuite::BipGmac256 => CIPHER_BIP_GMAC_256,
            CipherSuite::BipCmac256 => CIPHER_BIP_CMAC_256,
            CipherSuite::Other(x) => x,
        }
    }
}

/// Every selector is that of the suite it names.
pub proof fn law_selector_roundtrip(x: u32)
    ensures
        CipherSuite::spec_from_selector(x).spec_selector() == x,
{
}

/// The content of an RSN element with one pairwise cipher and one AKM.
#[derive(Clone, Copy)]
pub struct RsnElement {
    pub version: u16,
    pub group_cipher: u32,
    pub pairwise_cipher: u32,
    pub akm: u32,
    pub capabilities: u16,
    pub pmkid: Option<[u8; 16]>,
    pub group_mgmt_cipher: u32,
}

impl RsnElement {
    /// The octets of the PMKID list.
    pub open spec fn pmkid_list(self) -> Seq<u8> {
        match self.pmkid {
            Some(pmkid) => bytes::le16_bytes(1) + pmkid@,
            None => bytes::le16_bytes(0),
        }
    }

    /// The body of the element.
    pub open spec fn body(self) -> Seq<u8> {
        bytes::le16_bytes(self.version) + bytes::le32_bytes(self.group_cipher)
            + bytes::le16_bytes(1) + bytes::le32_bytes(self.pairwise_cipher) + bytes::le16_bytes(1)
            + bytes::le32_bytes(self.akm) + bytes::le16_bytes(self.capabilities)
            + self.pmkid_list() + bytes::le32_bytes(self.group_mgmt_cipher)
    }

    /// The octets of the element.
    pub open spec fn octets(self) -> Seq<u8> {
        seq![IE_ID_RSNE, self.body().len() as u8] + self.body()
    }
}

/// `wl_nl80211`'s `Emitable::emit` of `Ieee80211Elements` that hold one
/// `Ieee80211Element::Rsn`: the element identifier and length, then the
/// fields in the order of the standard, integers least significant octet
/// first. The suite enumerations convert from and to their selectors without
/// loss.
#[verifier::external_body]
fn emit_rsn(rsn: &RsnElement) -> (r: Vec<u8>)
    ensures
        r@ == rsn.octets(),
{
    let elements = Ieee80211Elements(vec![Ieee80211Element::Rsn(Ieee80211ElementRsn {
        version: rsn.version,
        group_cipher: Some(rsn.group_cipher.into()),
        pairwise_ciphers: vec![rsn.pairwise_cipher.into()],
        akm_suits: vec![rsn.akm.into()],
        rsn_capbilities: Some(Ieee80211RsnCapbilities::from_bits_retain(rsn.capabilities)),
        pmkids: rsn.pmkid.into_iter().map(Ieee80211Pmkid).collect(),
        group_mgmt_cipher: Some(rsn.group_mgmt_cipher.into()),
    })]);
    let mut buf = vec![0u8; elements.buffer_len()];
    elements.emit(&mut buf);
    buf
}

/// The octets of the RSNXE that advertises SAE Hash-to-Element.
pub open spec fn sae_rsnxe_octets() -> Seq<u8> {
    seq![IE_ID_RSNXE, 1u8, 0x20u8]
}

/// The RSNXE element advertising SAE Hash-to-Element support; included in FT
/// Reassociation Requests (and their FTIE MIC) on FT-SAE.
///
/// `wl_nl80211`'s `Emitable::emit` of `Ieee80211Elements` that hold one
/// `Ieee80211Element::RsnExt` with the `SaeH2e` capability (bit 5): one
/// capability octet, whose length subfield is zero.
#[verifier::external_body]
pub fn sae_rsnxe() -> (r: Vec<u8>)
    ensures
        r@ == sae_rsnxe_octets(),
{
    let elements = Ieee80211Elements(vec![Ieee80211Element::RsnExt(Ieee80211ElementRsnExt {
        capabilities: Ieee80211RsnExtCapbilities::SaeH2e,
    })]);
    let mut buf = vec![0u8; elements.buffer_len()];
    elements.emit(&mut buf);
    buf
}

/// `wl_nl80211::Ieee80211ElementRsnExt::parse` and whether the parsed
/// capabilities contain `SaeH2e`: bit 5 of the first octet. An empty payload
/// does not parse.
#[verifier::external_body]
fn rsnxe_has_sae_h2e(payload: &[u8]) -> (r: bool)
    ensures
        r == (payload@.len() > 0 && payload@[0] & 0x20 != 0),
{
    Ieee80211ElementRsnExt::parse(payload).is_ok_and(
        |rsnxe| rsnxe.capabilities.contains(Ieee80211RsnExtCapbilities::SaeH2e),
    )
}

/// Whether the AP's RSNXE (full element: ID || length || body) advertises
/// SAE Hash-to-Element support. An empty slice (no RSNXE in the beacon/probe
/// response) or a malformed element both mean "not advertised":
/// `SaePwe::Auto` uses this to pick hunting-and-pecking up front for APs that
/// never claim H2E support, instead of sending an H2E commit the AP will
/// silently drop and only discovering the mismatch after the commit times
/// out.
pub fn ap_rsnxe_supports_sae_h2e(ap_rsnxe: &[u8]) -> (r: bool)
    ensures
        r == (ap_rsnxe@.len() >= 3 && ap_rsnxe@[2] & 0x20 != 0),
{
    if ap_rsnxe.len() < 3 {
        return false;
    }
    rsnxe_has_sae_h2e(vstd::slice::slice_subrange(ap_rsnxe, 2, ap_rsnxe.len()))
}

/// Whether an RSNE (full element) has a bit of `mask` set in its
/// capabilities.
pub open spec fn advertises(rsne: Seq<u8>, mask: u16) -> bool {
    rsne.len() >= 2 && (capabilities(rsne.subrange(2, rsne.len() as int)) matches Some(c) && c
        & mask != 0)
}

/// Whether the AP's RSNE (full element: ID || length || body) advertises the
/// OCVC RSN capability (bit 14, 802.11-2020 §9.4.2.25). Used to enable
/// Operating Channel Validation only when the AP actually supports it,
/// instead of enforcing OCI verification against an AP that will never
/// include an OCI KDE in Message 3 - which would otherwise always fail the
/// 4-way handshake.
pub fn ap_rsne_supports_ocv(ap_rsne: &[u8]) -> (r: bool)
    ensures
        r == advertises(ap_rsne@, CAP_OCVC),
{
    if ap_rsne.len() < 2 {
        return false;
    }
    match rsne_capabilities_field(vstd::slice::slice_subrange(ap_rsne, 2, ap_rsne.len())) {
        Some(c) => c & CAP_OCVC != 0,
        None => false,
    }
}

/// Whether the AP's RSNE advertises the Extended Key ID for Individually
/// Addressed Frames RSN capability (bit 13, 802.11-2020 §9.4.2.25). Used to
/// request Extended Key ID only when the AP actually supports it, instead of
/// requiring a Key ID KDE in Message 3 that a non-supporting AP will never
/// send.
pub fn ap_rsne_supports_ext_key_id(ap_rsne: &[u8]) -> (r: bool)
    ensures
        r == advertises(ap_rsne@, CAP_EXT_KEY_ID),
{
    if ap_rsne.len() < 2 {
        return false;
    }
    match rsne_capabilities_field(vstd::slice::slice_subrange(ap_rsne, 2, ap_rsne.len())) {
        Some(c) => c & CAP_EXT_KEY_ID != 0,
        None => false,
    }
}

/// The group management cipher of an RSNE (full element), if present.
pub open spec fn group_mgmt_cipher(rsne: Seq<u8>) -> Option<CipherSuite> {
    if rsne.len() < 4 {
        None
    } else {
        match group_mgmt_selector(rsne.subrange(2, rsne.len() as int)) {
            Some(x) => Some(CipherSuite::spec_from_selector(x)),
            None => None,
        }
    }
}

/// The group management (BIP) cipher the AP advertises in its RSNE (full
/// element, ID + length + body); `None` when absent (older PMF-optional
/// RSNEs omit it, and BIP-CMAC-128 is then assumed).
pub fn parse_group_mgmt_cipher(rsne: &[u8]) -> (r: Option<CipherSuite>)
    ensures
        r == group_mgmt_cipher(rsne@),
{
    if rsne.len() < 4 {
        return None;
    }
    let body = vstd::slice::slice_subrange(rsne, 2, rsne.len());
    match find_capabilities(body) {
        Some(cap) => {
            let off: usize = cap + 2;
            if body.len() < off + 2 {
                return None;
            }
            let count: usize = bytes::read_le16(body, off) as usize;
            let at: usize = off + 2 + count * 16;
            if body.len() < at + 4 {
                return None;
            }
            Some(CipherSuite::from_selector(bytes::read_le32(body, at)))
        },
        None => None,
    }
}

/// The group management cipher to use with an AP's RSNE: the one that it
/// names, where it is known; BIP-CMAC-128 otherwise.
pub open spec fn negotiated_cipher(ap_rsne: Seq<u8>) -> CipherSuite {
    match group_mgmt_cipher(ap_rsne) {
        Some(CipherSuite::BipGmac256) => CipherSuite::BipGmac256,
        Some(CipherSuite::BipCmac256) => CipherSuite::BipCmac256,
        Some(CipherSuite::BipGmac128) => CipherSuite::BipGmac128,
        _ => CipherSuite::BipCmac128,
    }
}

/// Negotiate the group management (BIP) cipher with the AP: the best
/// supported suite the AP advertises, defaulting to BIP-CMAC-128. An RSNE
/// names one suite, so the choice is that suite where it is one of GMAC-256,
/// CMAC-256, GMAC-128 and CMAC-128.
pub fn negotiate_group_mgmt_cipher(ap_rsne: &[u8]) -> (r: CipherSuite)
    ensures
        r == negotiated_cipher(ap_rsne@),
{
    match parse_group_mgmt_cipher(ap_rsne) {
        Some(CipherSuite::BipGmac256) => CipherSuite::BipGmac256,
        Some(CipherSuite::BipCmac256) => CipherSuite::BipCmac256,
        Some(CipherSuite::BipGmac128) => CipherSuite::BipGmac128,
        _ => CipherSuite::BipCmac128,
    }
}

/// An RSNE (full element) with the bits of `mask` set or cleared in its
/// capabilities; unchanged where it has none.
pub open spec fn with_capability(rsne: Seq<u8>, mask: u16, enabled: bool) -> Seq<u8> {
    if rsne.len() < 4 {
        rsne
    } else {
        let body = rsne.subrange(2, rsne.len() as int);
        match capabilities_offset(body) {
            Some(off) => if body.len() < off + 2 {
                rsne
            } else {
                let c = bytes::le16(body[off], body[off + 1]);
                let n = if enabled {
                    c | mask
                } else {
                    c & !mask
                };
                rsne.update(2 + off, bytes::le16_bytes(n)[0]).update(
                    3 + off,
                    bytes::le16_bytes(n)[1],
                )
            },
            None => rsne,
        }
    }
}

/// Setting a capability in an RSNE that has capabilities leaves what follows it
/// alone, and leaves an RSNE that has them.
pub proof fn lemma_capability_of_first(rsne: Seq<u8>, rest: Seq<u8>, mask: u16, enabled: bool)
    requires
        rsne.len() >= 4,
        capabilities(rsne.subrange(2, rsne.len() as int)) is Some,
    ensures
        ({
            let changed = with_capability(rsne, mask, enabled);
            &&& with_capability(rsne + rest, mask, enabled) == changed + rest
            &&& changed.len() == rsne.len()
            &&& capabilities(changed.subrange(2, changed.len() as int)) is Some
        }),
{
    let body = rsne.subrange(2, rsne.len() as int);
    let all = rsne + rest;
    let all_body = all.subrange(2, all.len() as int);
    assert(all_body =~= body + rest);
    let akm = akm_offset(body)->0;
    assert(all_body[6] == body[6] && all_body[7] == body[7]);
    assert(all_body[akm] == body[akm] && all_body[akm + 1] == body[akm + 1]);
    let off = capabilities_offset(body)->0;
    assert(capabilities_offset(all_body) == Some(off));
    assert(all_body[off] == body[off] && all_body[off + 1] == body[off + 1]);
    let changed = with_capability(rsne, mask, enabled);
    assert(with_capability(all, mask, enabled) =~= changed + rest);
    let changed_body = changed.subrange(2, changed.len() as int);
    assert(changed_body[6] == body[6] && changed_body[7] == body[7]);
    assert(changed_body[akm] == body[akm] && changed_body[akm + 1] == body[akm + 1]);
}

/// Set or clear the bits of `mask` in the RSN capabilities.
fn set_capability(rsne: &mut [u8], mask: u16, enabled: bool)
    ensures
        final(rsne)@ == with_capability(old(rsne)@, mask, enabled),
{
    if rsne.len() < 4 {
        return ;
    }
    let body = vstd::slice::slice_subrange(rsne, 2, rsne.len());
    let n_body: usize = body.len();
    match find_capabilities(body) {
        Some(off) => {
            if n_body < off + 2 {
                return ;
            }
            let c: u16 = bytes::read_le16(body, off);
            let n: u16 = if enabled {
                c | mask
            } else {
                c & !mask
            };
            rsne[2 + off] = (n % 256) as u8;
            rsne[3 + off] = (n / 256) as u8;
        },
        None => {},
    }
}

/// Set or clear the OCV capability bit (bit 14) in the RSN capabilities of a
/// built RSNE.
pub fn rsne_set_ocvc(rsne: &mut [u8], enabled: bool)
    ensures
        final(rsne)@ == with_capability(old(rsne)@, CAP_OCVC, enabled),
{
    set_capability(rsne, CAP_OCVC, enabled);
}

/// Set or clear the Extended Key ID capability bit (bit 13) in the RSN
/// capabilities of a built RSNE.
pub fn rsne_set_ext_key_id(rsne: &mut [u8], enabled: bool)
    ensures
        final(rsne)@ == with_capability(old(rsne)@, CAP_EXT_KEY_ID, enabled),
{
    set_capability(rsne, CAP_EXT_KEY_ID, enabled);
}

/// Setting a capability of an RSNE changes that capability alone: the
/// element keeps its length and every octet outside the capabilities field,
/// advertises the bit exactly when it was enabled, and advertises every other
/// bit as before. Setting it again changes nothing.
pub proof fn law_set_capability(rsne: Seq<u8>, mask: u16, other: u16, enabled: bool)
    requires
        rsne.len() >= 2,
        capabilities(rsne.subrange(2, rsne.len() as int)) is Some,
        mask != 0,
        mask & other == 0,
    ensures
        ({
            let out = with_capability(rsne, mask, enabled);
            let off = capabilities_offset(rsne.subrange(2, rsne.len() as int))->0;
            &&& out.len() == rsne.len()
            &&& forall|i: int|
                0 <= i < rsne.len() && i != 2 + off && i != 3 + off ==> out[i] == rsne[i]
            &&& advertises(out, mask) == enabled
            &&& advertises(out, other) == advertises(rsne, other)
            &&& with_capability(out, mask, enabled) == out
        }),
{
    let out = with_capability(rsne, mask, enabled);
    let body = rsne.subrange(2, rsne.len() as int);
    let off = capabilities_offset(body)->0;
    let c = capabilities(body)->0;
    let n = if enabled {
        c | mask
    } else {
        c & !mask
    };
    let body2 = out.subrange(2, out.len() as int);
    bytes::lemma_u16_bytes(n);
    assert(body2[6] == body[6] && body2[7] == body[7]);
    let akm = akm_offset(body)->0;
    assert(akm_offset(body2) == Some(akm));
    assert(body2[akm] == body[akm] && body2[akm + 1] == body[akm + 1]);
    assert(capabilities(body2) == Some(n));
    assert((c | mask) & mask != 0) by (bit_vector)
        requires
            mask != 0u16,
    ;
    assert((c & !mask) & mask == 0) by (bit_vector);
    assert((c | mask) & other == c & other) by (bit_vector)
        requires
            mask & other == 0u16,
    ;
    assert((c & !mask) & other == c & other) by (bit_vector)
        requires
            mask & other == 0u16,
    ;
    assert((c | mask) | mask == c | mask) by (bit_vector);
    assert((c & !mask) & !mask == c & !mask) by (bit_vector);
    assert(with_capability(out, mask, enabled) =~= out);
}

/// The RSNE of an AKM with CCMP-128.
pub open spec fn rsne_octets(
    akm: u32,
    caps: u16,
    pmkid: Option<[u8; 16]>,
    mgmt_cipher: CipherSuite,
) -> Seq<u8> {
    (RsnElement {
        version: 1,
        group_cipher: CIPHER_CCMP_128,
        pairwise_cipher: CIPHER_CCMP_128,
        akm,
        capabilities: caps,
        pmkid,
        group_mgmt_cipher: mgmt_cipher.spec_selector(),
    }).octets()
}

/// Build the RSNE of an AKM with CCMP-128.
fn rsne(akm: u32, caps: u16, pmkid: Option<[u8; 16]>, mgmt_cipher: CipherSuite) -> (r: Vec<u8>)
    ensures
        r@ == rsne_octets(akm, caps, pmkid, mgmt_cipher),
{
    let rsn = RsnElement {
        version: 1,
        group_cipher: CIPHER_CCMP_128,
        pairwise_cipher: CIPHER_CCMP_128,
        akm,
        capabilities: caps,
        pmkid,
        group_mgmt_cipher: mgmt_cipher.selector(),
    };
    emit_rsn(&rsn)
}

/// Build the RSNE of an AKM with CCMP-128, followed by the SAE RSNXE.
fn rsne_and_rsnxe(
    akm: u32,
    caps: u16,
    pmkid: Option<[u8; 16]>,
    mgmt_cipher: CipherSuite,
) -> (r: Vec<u8>)
    ensures
        r@ == rsne_octets(akm, caps, pmkid, mgmt_cipher) + sae_rsnxe_octets(),
{
    let mut buf = rsne(akm, caps, pmkid, mgmt_cipher);
    let rsnxe = sae_rsnxe();
    bytes::append(&mut buf, rsnxe.as_slice());
    buf
}

/// Build the RSNE + RSNXE for WPA3-Personal with BIP-CMAC-128 (SAE /
/// CCMP-128, management frame protection required, SAE Hash-to-Element). The
/// exact same bytes are used in the Association Request and in 4-way
/// handshake Message 2; the AP verifies they match, so both call sites must
/// use this single builder.
pub fn sae_ie() -> (r: Vec<u8>)
    ensures
        r@ == rsne_octets(AKM_SAE, CAPS_MFP_REQUIRED, None, CipherSuite::BipCmac128)
            + sae_rsnxe_octets(),
{
    sae_ie_cipher(CipherSuite::BipCmac128)
}

/// [`sae_ie`] with a negotiated group management (BIP) cipher.
pub fn sae_ie_cipher(mgmt_cipher: CipherSuite) -> (r: Vec<u8>)
    ensures
        r@ == rsne_octets(AKM_SAE, CAPS_MFP_REQUIRED, None, mgmt_cipher) + sae_rsnxe_octets(),
{
    sae_ie_with_pmkid_cipher(None, mgmt_cipher)
}

/// [`sae_ie_cipher`] carrying a PMKID.
pub fn sae_ie_with_pmkid_cipher(pmkid: Option<[u8; 16]>, mgmt_cipher: CipherSuite) -> (r: Vec<u8>)
    ensures
        r@ == rsne_octets(AKM_SAE, CAPS_MFP_REQUIRED, pmkid, mgmt_cipher) + sae_rsnxe_octets(),
{
    rsne_and_rsnxe(AKM_SAE, CAPS_MFP_REQUIRED, pmkid, mgmt_cipher)
}

/// Build the RSNE + RSNXE for SAE-EXT-KEY (AKM 00-0F-AC:24): same security
/// policy as SAE (CCMP-128, MFP required, H2E), only the AKM differs.
pub fn sae_ext_key_ie_cipher(mgmt_cipher: CipherSuite) -> (r: Vec<u8>)
    ensures
        r@ == rsne_octets(AKM_SAE_EXT_KEY, CAPS_MFP_REQUIRED, None, mgmt_cipher)
            + sae_rsnxe_octets(),
{
    sae_ext_key_ie_with_pmkid_cipher(None, mgmt_cipher)
}

/// [`sae_ext_key_ie_cipher`] carrying a PMKID.
pub fn sae_ext_key_ie_with_pmkid_cipher(
    pmkid: Option<[u8; 16]>,
    mgmt_cipher: CipherSuite,
) -> (r: Vec<u8>)
    ensures
        r@ == rsne_octets(AKM_SAE_EXT_KEY, CAPS_MFP_REQUIRED, pmkid, mgmt_cipher)
            + sae_rsnxe_octets(),
{
    rsne_and_rsnxe(AKM_SAE_EXT_KEY, CAPS_MFP_REQUIRED, pmkid, mgmt_cipher)
}

/// Build the FT-SAE-EXT-KEY RSNE element only (AKM 00-0F-AC:25).
pub fn ft_sae_ext_key_rsne_cipher(
    pmkid: Option<[u8; 16]>,
    mgmt_cipher: CipherSuite,
) -> (r: Vec<u8>)
    ensures
        r@ == rsne_octets(AKM_FT_SAE_EXT_KEY, CAPS_MFP_REQUIRED, pmkid, mgmt_cipher),
{
    rsne(AKM_FT_SAE_EXT_KEY, CAPS_MFP_REQUIRED, pmkid, mgmt_cipher)
}

/// Build the RSNE + RSNXE for FT-SAE-EXT-KEY (AKM 00-0F-AC:25).
pub fn ft_sae_ext_key_ie_cipher(pmkid: Option<[u8; 16]>, mgmt_cipher: CipherSuite) -> (r: Vec<u8>)
    ensures
        r@ == rsne_octets(AKM_FT_SAE_EXT_KEY, CAPS_MFP_REQUIRED, pmkid, mgmt_cipher)
            + sae_rsnxe_octets(),
{
    rsne_and_rsnxe(AKM_FT_SAE_EXT_KEY, CAPS_MFP_REQUIRED, pmkid, mgmt_cipher)
}

/// Build the RSNE for OWE (AKM 00-0F-AC:18, CCMP-128, MFP required). No RSNXE
/// — OWE does not use SAE H2E.
pub fn owe_ie_cipher(mgmt_cipher: CipherSuite) -> (r: Vec<u8>)
    ensures
        r@ == rsne_octets(AKM_OWE, CAPS_MFP_REQUIRED, None, mgmt_cipher),
{
    rsne(AKM_OWE, CAPS_MFP_REQUIRED, None, mgmt_cipher)
}

/// Build the RSNE for WPA2-PSK (AKM 00-0F-AC:2, CCMP-128). Management frame
/// protection is negotiated as optional (MFPC without MFPR): PMF-capable APs
/// then protect the connection with an IGTK, PMF-less APs still accept it.
pub fn wpa2_psk_ie_cipher(mgmt_cipher: CipherSuite) -> (r: Vec<u8>)
    ensures
        r@ == rsne_octets(AKM_PSK, CAP_MFPC, None, mgmt_cipher),
{
    wpa2_psk_ie_with_pmkid_cipher(None, mgmt_cipher)
}

/// [`wpa2_psk_ie_cipher`] carrying a PMKID.
pub fn wpa2_psk_ie_with_pmkid_cipher(
    pmkid: Option<[u8; 16]>,
    mgmt_cipher: CipherSuite,
) -> (r: Vec<u8>)
    ensures
        r@ == rsne_octets(AKM_PSK, CAP_MFPC, pmkid, mgmt_cipher),
{
    rsne(AKM_PSK, CAP_MFPC, pmkid, mgmt_cipher)
}

/// Build the RSNE for WPA2-Personal with SHA-256 algorithms (PSK-SHA256, AKM
/// 00-0F-AC:6, CCMP-128). Same security policy as WPA2-PSK (optional MFP),
/// only the AKM suite differs.
pub fn wpa2_psk_sha256_ie_cipher(mgmt_cipher: CipherSuite) -> (r: Vec<u8>)
    ensures
        r@ == rsne_octets(AKM_PSK_SHA256, CAP_MFPC, None, mgmt_cipher),
{
    wpa2_psk_sha256_ie_with_pmkid_cipher(None, mgmt_cipher)
}

/// [`wpa2_psk_sha256_ie_cipher`] carrying a PMKID.
pub fn wpa2_psk_sha256_ie_with_pmkid_cipher(
    pmkid: Option<[u8; 16]>,
    mgmt_cipher: CipherSuite,
) -> (r: Vec<u8>)
    ensures
        r@ == rsne_octets(AKM_PSK_SHA256, CAP_MFPC, pmkid, mgmt_cipher),
{
    rsne(AKM_PSK_SHA256, CAP_MFPC, pmkid, mgmt_cipher)
}

/// Build the RSNE for WPA2-Enterprise (802.1X, AKM 00-0F-AC:1, CCMP-128)
/// with optional management frame protection.
pub fn wpa2_ent_ie_cipher(mgmt_cipher: CipherSuite) -> (r: Vec<u8>)
    ensures
        r@ == rsne_octets(AKM_8021X, CAP_MFPC, None, mgmt_cipher),
{
    rsne(AKM_8021X, CAP_MFPC, None, mgmt_cipher)
}

/// Build the RSNE for WPA3-Enterprise (802.1X-SHA256, AKM 00-0F-AC:5,
/// CCMP-128) with **mandatory** management frame protection (MFPR + MFPC) -
/// the WPA3 baseline requirement.
pub fn wpa2_ent_sha256_ie_cipher(mgmt_cipher: CipherSuite) -> (r: Vec<u8>)
    ensures
        r@ == rsne_octets(AKM_8021X_SHA256, CAPS_MFP_REQUIRED, None, mgmt_cipher),
{
    rsne(AKM_8021X_SHA256, CAPS_MFP_REQUIRED, None, mgmt_cipher)
}

/// Build the FT-SAE RSNE element only (AKM 00-0F-AC:9). Used where the RSNE
/// and RSNXE must stay separate elements (FT Reassociation Request: the FTIE
/// MIC covers RSNE, MDIE, FTIE, then RSNXE in that order).
pub fn ft_sae_rsne_cipher(pmkid: Option<[u8; 16]>, mgmt_cipher: CipherSuite) -> (r: Vec<u8>)
    ensures
        r@ == rsne_octets(AKM_FT_SAE, CAPS_MFP_REQUIRED, pmkid, mgmt_cipher),
{
    rsne(AKM_FT_SAE, CAPS_MFP_REQUIRED, pmkid, mgmt_cipher)
}

/// Build the FT-PSK RSNE element only (AKM 00-0F-AC:4).
pub fn ft_psk_rsne_cipher(pmkid: Option<[u8; 16]>, mgmt_cipher: CipherSuite) -> (r: Vec<u8>)
    ensures
        r@ == rsne_octets(AKM_FT_PSK, CAP_MFPC, pmkid, mgmt_cipher),
{
    rsne(AKM_FT_PSK, CAP_MFPC, pmkid, mgmt_cipher)
}

/// Build the RSNE + RSNXE for FT-SAE (AKM 00-0F-AC:9): same crypto policy as
/// SAE (CCMP-128, MFP required, SAE H2E), only the AKM differs. `pmkid`
/// carries PMKR0Name / PMKR1Name during FT.
pub fn ft_sae_ie_cipher(pmkid: Option<[u8; 16]>, mgmt_cipher: CipherSuite) -> (r: Vec<u8>)
    ensures
        r@ == rsne_octets(AKM_FT_SAE, CAPS_MFP_REQUIRED, pmkid, mgmt_cipher) + sae_rsnxe_octets(),
{
    rsne_and_rsnxe(AKM_FT_SAE, CAPS_MFP_REQUIRED, pmkid, mgmt_cipher)
}

/// Build the RSNE for FT-PSK (AKM 00-0F-AC:4): same crypto policy as WPA2-PSK
/// (CCMP-128, optional MFP). `pmkid` carries PMKR0Name / PMKR1Name during FT.
pub fn ft_psk_ie_cipher(pmkid: Option<[u8; 16]>, mgmt_cipher: CipherSuite) -> (r: Vec<u8>)
    ensures
        r@ == rsne_octets(AKM_FT_PSK, CAP_MFPC, pmkid, mgmt_cipher),
{
    ft_psk_rsne_cipher(pmkid, mgmt_cipher)
}

/// A built RSNE is one complete element whose fields are read back as they
/// were put in: its capabilities, its PMKID if it carries one, and its group
/// management cipher.
#[verifier::spinoff_prover]
#[verifier::rlimit(60)]
pub proof fn law_rsne_fields(akm: u32, caps: u16, pmkid: Option<[u8; 16]>, mgmt: CipherSuite)
    ensures
        ({
            let e = rsne_octets(akm, caps, pmkid, mgmt);
            let body = e.subrange(2, e.len() as int);
            &&& tlv::elements_from(e, 0) == seq![tlv::Element { id: IE_ID_RSNE, body }]
            &&& capabilities(body) == Some(caps)
            &&& match pmkid {
                Some(p) => first_pmkid(body) == Some(p@),
                None => first_pmkid(body) is None,
            }
            &&& group_mgmt_selector(body) == Some(mgmt.spec_selector())
        }),
{
    let rsn = RsnElement {
        version: 1,
        group_cipher: CIPHER_CCMP_128,
        pairwise_cipher: CIPHER_CCMP_128,
        akm,
        capabilities: caps,
        pmkid,
        group_mgmt_cipher: mgmt.spec_selector(),
    };
    let e = rsn.octets();
    let body = rsn.body();
    assert(e.subrange(2, e.len() as int) =~= body);
    assert(body.len() == if pmkid is Some {
        42int
    } else {
        26int
    });
    tlv::lemma_single(e, 0);
    assert(tlv::element_at(e, 0).body =~= body);
    bytes::lemma_u16_bytes(1);
    bytes::lemma_u16_bytes(0);
    bytes::lemma_u16_bytes(caps);
    assert(body[6] == bytes::le16_bytes(1)[0] && body[7] == bytes::le16_bytes(1)[1]);
    assert(akm_offset(body) == Some(12int));
    assert(body[12] == bytes::le16_bytes(1)[0] && body[13] == bytes::le16_bytes(1)[1]);
    assert(capabilities_offset(body) == Some(18int));
    assert(body[18] == bytes::le16_bytes(caps)[0] && body[19] == bytes::le16_bytes(caps)[1]);
    let sel = mgmt.spec_selector();
    let m = bytes::le32_bytes(sel);
    assert(bytes::le32(m[0], m[1], m[2], m[3]) == sel);
    match pmkid {
        Some(p) => {
            assert(body[20] == bytes::le16_bytes(1)[0] && body[21] == bytes::le16_bytes(1)[1]);
            assert(body.subrange(22, 38) =~= p@);
            assert(body[38] == m[0] && body[39] == m[1] && body[40] == m[2] && body[41] == m[3]);
        },
        None => {
            assert(body[20] == bytes::le16_bytes(0)[0] && body[21] == bytes::le16_bytes(0)[1]);
            assert(body[22] == m[0] && body[23] == m[1] && body[24] == m[2] && body[25] == m[3]);
        },
    }
}

/// Two built RSNEs that differ only in their PMKIDs match when PMKIDs are
/// ignored.
pub proof fn law_match_ignores_pmkid(
    akm: u32,
    caps: u16,
    p: Option<[u8; 16]>,
    q: Option<[u8; 16]>,
    mgmt: CipherSuite,
)
    ensures
        rsne_same_but_pmkids(rsne_octets(akm, caps, p, mgmt), rsne_octets(akm, caps, q, mgmt)),
{
    lemma_without_pmkids(akm, caps, p, mgmt);
    lemma_without_pmkids(akm, caps, q, mgmt);
}

/// What is left of a built RSNE without its PMKIDs.
proof fn lemma_without_pmkids(akm: u32, caps: u16, pmkid: Option<[u8; 16]>, mgmt: CipherSuite)
    ensures
        without_pmkids(rsne_body(rsne_octets(akm, caps, pmkid, mgmt))) == Some(
            bytes::le16_bytes(1) + bytes::le32_bytes(CIPHER_CCMP_128) + bytes::le16_bytes(1)
                + bytes::le32_bytes(CIPHER_CCMP_128) + bytes::le16_bytes(1) + bytes::le32_bytes(akm)
                + bytes::le16_bytes(caps) + bytes::le32_bytes(mgmt.spec_selector()),
        ),
{
    law_rsne_fields(akm, caps, pmkid, mgmt);
    let e = rsne_octets(akm, caps, pmkid, mgmt);
    let body = e.subrange(2, e.len() as int);
    let list = tlv::elements_from(e, 0);
    assert(list[0].id == IE_ID_RSNE);
    assert(rsne_body(e) == body);
    bytes::lemma_u16_bytes(1);
    bytes::lemma_u16_bytes(0);
    assert(body[6] == bytes::le16_bytes(1)[0] && body[7] == bytes::le16_bytes(1)[1]);
    assert(body[12] == bytes::le16_bytes(1)[0] && body[13] == bytes::le16_bytes(1)[1]);
    assert(capabilities_offset(body) == Some(18int));
    let kept = bytes::le16_bytes(1) + bytes::le32_bytes(CIPHER_CCMP_128) + bytes::le16_bytes(1)
        + bytes::le32_bytes(CIPHER_CCMP_128) + bytes::le16_bytes(1) + bytes::le32_bytes(akm)
        + bytes::le16_bytes(caps) + bytes::le32_bytes(mgmt.spec_selector());
    match pmkid {
        Some(p) => {
            assert(body[20] == bytes::le16_bytes(1)[0] && body[21] == bytes::le16_bytes(1)[1]);
            assert(body.subrange(0, 20) + body.subrange(38, body.len() as int) =~= kept);
        },
        None => {
            assert(body[20] == bytes::le16_bytes(0)[0] && body[21] == bytes::le16_bytes(0)[1]);
            assert(body.subrange(0, 20) + body.subrange(22, body.len() as int) =~= kept);
        },
    }
}

/// Build a Mobility Domain element: MDID (2) || FT Capability and Policy (1).
/// `ft_capab` is normally echoed from the target AP's MDIE.
pub fn mdie(mdid: [u8; 2], ft_capab: u8) -> (r: Vec<u8>)
    ensures
        r@ == seq![IE_ID_MDIE, 3, mdid@[0], mdid@[1], ft_capab],
{
    let mut r: Vec<u8> = Vec::new();
    r.push(IE_ID_MDIE);
    r.push(3);
    r.push(mdid[0]);
    r.push(mdid[1]);
    r.push(ft_capab);
    assert(r@ =~= seq![IE_ID_MDIE, 3, mdid@[0], mdid@[1], ft_capab]);
    r
}

/// Parse a Mobility Domain element body: (MDID, FT capability/policy).
pub fn parse_mdie(body: &[u8]) -> (r: Option<([u8; 2], u8)>)
    ensures
        r is Some <==> body@.len() >= 3,
        r matches Some((mdid, capab)) ==> mdid@ == body@.subrange(0, 2) && capab == body@[2],
{
    if body.len() < 3 {
        return None;
    }
    let mdid: [u8; 2] = [body[0], body[1]];
    assert(mdid@ =~= body@.subrange(0, 2));
    Some((mdid, body[2]))
}

/// A built Mobility Domain element is found in an element list by its
/// identifier, with the fields it was built from.
pub proof fn law_mdie_roundtrip(mdid: Seq<u8>, ft_capab: u8)
    requires
        mdid.len() == 2,
    ensures
        tlv::first_with(
            tlv::elements_from(seq![IE_ID_MDIE, 3, mdid[0], mdid[1], ft_capab], 0),
            IE_ID_MDIE,
        ) matches Some(e) && e.body.len() == 3 && e.body.subrange(0, 2) == mdid && e.body[2]
            == ft_capab,
{
    let s = seq![IE_ID_MDIE, 3, mdid[0], mdid[1], ft_capab];
    tlv::lemma_single(s, 0);
    assert(tlv::element_at(s, 0).body =~= seq![mdid[0], mdid[1], ft_capab]);
    assert(tlv::element_at(s, 0).body.subrange(0, 2) =~= mdid);
}

// FTIE subelement identifiers (802.11-2020 §9.4.2.48).
pub const FTIE_SUBELEM_R1KH_ID: u8 = 1;

pub const FTIE_SUBELEM_GTK: u8 = 2;

pub const FTIE_SUBELEM_R0KH_ID: u8 = 3;

pub const FTIE_SUBELEM_IGTK: u8 = 4;

pub const FTIE_SUBELEM_BIGTK: u8 = 6;

/// The FTIE of an FT Authentication request. The lengths are taken modulo
/// 256.
pub open spec fn ftie_auth_octets(snonce: Seq<u8>, r0kh_id: Seq<u8>) -> Seq<u8> {
    seq![IE_ID_FTIE, ((84 + r0kh_id.len()) % 256) as u8] + seq![0u8, 0] + bytes::zeros(16)
        + bytes::zeros(32) + snonce + seq![
        FTIE_SUBELEM_R0KH_ID,
        (r0kh_id.len() % 256) as u8,
    ] + r0kh_id
}

/// Build the FTIE of an over-the-air FT Authentication request (transaction
/// 1): SNonce and the R0KH-ID subelement, with the MIC left zeroed - the
/// first FT authentication frame carries no MIC.
pub fn ftie_auth_request(snonce: &[u8; 32], r0kh_id: &[u8]) -> (e: Vec<u8>)
    ensures
        e@ == ftie_auth_octets(snonce@, r0kh_id@),
{
    let zero16: [u8; 16] = [0u8; 16];
    let zero32: [u8; 32] = [0u8; 32];
    let mut e: Vec<u8> = Vec::new();
    e.push(IE_ID_FTIE);
    e.push(((84 + r0kh_id.len() % 256) % 256) as u8);
    // MIC Control: MIC length code 0 (= 16 octets), element count 0.
    e.push(0);
    e.push(0);
    bytes::append(&mut e, &zero16);
    bytes::append(&mut e, &zero32);
    bytes::append(&mut e, snonce);
    e.push(FTIE_SUBELEM_R0KH_ID);
    e.push((r0kh_id.len() % 256) as u8);
    bytes::append(&mut e, r0kh_id);
    assert(e@ =~= ftie_auth_octets(snonce@, r0kh_id@));
    e
}

/// The octets of an FTIE that carries the MIC `mic` and both key holders.
/// The lengths are taken modulo 256.
pub open spec fn ftie_reassoc_octets(
    with_rsnxe: bool,
    mic: Seq<u8>,
    anonce: Seq<u8>,
    snonce: Seq<u8>,
    r0kh_id: Seq<u8>,
    r1kh_id: Seq<u8>,
) -> Seq<u8> {
    seq![IE_ID_FTIE, ((92 + r0kh_id.len()) % 256) as u8] + (if with_rsnxe {
        seq![1u8, 4]
    } else {
        seq![0u8, 3]
    }) + mic + anonce + snonce + seq![FTIE_SUBELEM_R1KH_ID, 6u8] + r1kh_id + seq![
        FTIE_SUBELEM_R0KH_ID,
        (r0kh_id.len() % 256) as u8,
    ] + r0kh_id
}

/// The elements that the MIC of an FT Reassociation Request covers: RSNE,
/// MDIE, the FTIE with its MIC zero, and the RSNXE when there is one.
pub open spec fn reassoc_mic_elements(
    rsne: Seq<u8>,
    mdie: Seq<u8>,
    ftie: Seq<u8>,
    rsnxe: Option<Seq<u8>>,
) -> Seq<u8> {
    rsne + mdie + ftie + (match rsnxe {
        Some(x) => x,
        None => Seq::empty(),
    })
}

/// The view of an optional slice.
pub open spec fn opt_slice(s: Option<&[u8]>) -> Option<Seq<u8>> {
    match s {
        Some(b) => Some(b@),
        None => None,
    }
}

/// The MIC of an FT Reassociation Request whose FTIE is `ftie` with its MIC
/// zero.
pub open spec fn reassoc_mic(
    kck: Seq<u8>,
    sta_addr: Seq<u8>,
    ap_addr: Seq<u8>,
    rsne: Seq<u8>,
    mdie: Seq<u8>,
    ftie: Seq<u8>,
    rsnxe: Option<Seq<u8>>,
) -> Seq<u8> {
    primitives::aes_128_cmac(
        kck,
        ft::ft_mic_data(sta_addr, ap_addr, 5, reassoc_mic_elements(rsne, mdie, ftie, rsnxe)),
    )
}

/// Whether `r` is what building the FTIE of an FT Reassociation Request gives:
/// the element with its 16-octet MIC.
pub open spec fn reassoc_ftie_built(
    kck: Seq<u8>,
    sta_addr: Seq<u8>,
    ap_addr: Seq<u8>,
    anonce: Seq<u8>,
    snonce: Seq<u8>,
    r0kh_id: Seq<u8>,
    r1kh_id: Seq<u8>,
    rsne: Seq<u8>,
    mdie: Seq<u8>,
    rsnxe: Option<Seq<u8>>,
    r: Result<Vec<u8>, WifiError>,
) -> bool {
    let zeroed = ftie_reassoc_octets(
        rsnxe is Some,
        bytes::zeros(16),
        anonce,
        snonce,
        r0kh_id,
        r1kh_id,
    );
    let mic = reassoc_mic(kck, sta_addr, ap_addr, rsne, mdie, zeroed, rsnxe);
    &&& r matches Ok(ftie)
    &&& mic.len() == 16
    &&& ftie@ == ftie_reassoc_octets(rsnxe is Some, mic, anonce, snonce, r0kh_id, r1kh_id)
}

/// Build the FTIE of an FT Reassociation Request, MIC included (802.11-2020
/// §12.8.4: transaction sequence number 5 over STA-ADDR || AP-ADDR || seq ||
/// RSNE || MDIE || FTIE(MIC=0) || [RSNXE]). `rsne` / `mdie` / `rsnxe` are
/// full elements (with their IE headers). The RSNXE Used bit stands in the
/// MIC Control when the RSNXE is part of the MIC (SAE H2E networks).
#[allow(clippy::too_many_arguments)]
pub fn ftie_reassoc_request(
    kck: &[u8; 16],
    sta_addr: [u8; 6],
    ap_addr: [u8; 6],
    anonce: &[u8; 32],
    snonce: &[u8; 32],
    r0kh_id: &[u8],
    r1kh_id: &[u8; 6],
    rsne: &[u8],
    mdie: &[u8],
    rsnxe: Option<&[u8]>,
) -> (r: Result<Vec<u8>, WifiError>)
    ensures
        reassoc_ftie_built(
            kck@,
            sta_addr@,
            ap_addr@,
            anonce@,
            snonce@,
            r0kh_id@,
            r1kh_id@,
            rsne@,
            mdie@,
            opt_slice(rsnxe),
            r,
        ),
{
    let zero16: [u8; 16] = [0u8; 16];
    assert(zero16@ =~= bytes::zeros(16));
    let zeroed = ftie_with_mic(rsnxe.is_some(), &zero16, anonce, snonce, r0kh_id, r1kh_id);
    let mut mic_data: Vec<u8> = Vec::new();
    bytes::append(&mut mic_data, rsne);
    bytes::append(&mut mic_data, mdie);
    bytes::append(&mut mic_data, zeroed.as_slice());
    if let Some(x) = rsnxe {
        bytes::append(&mut mic_data, x);
    }
    assert(mic_data@ =~= reassoc_mic_elements(rsne@, mdie@, zeroed@, opt_slice(rsnxe)));
    match ft::ft_mic(kck, sta_addr, ap_addr, 5, mic_data.as_slice()) {
        Ok(mic) => Ok(
            ftie_with_mic(rsnxe.is_some(), &mic, anonce, snonce, r0kh_id, r1kh_id),
        ),
        Err(e) => Err(e),
    }
}

/// An FTIE with a given MIC and both key holders.
pub fn ftie_with_mic(
    with_rsnxe: bool,
    mic: &[u8; 16],
    anonce: &[u8; 32],
    snonce: &[u8; 32],
    r0kh_id: &[u8],
    r1kh_id: &[u8; 6],
) -> (ftie: Vec<u8>)
    ensures
        ftie@ == ftie_reassoc_octets(with_rsnxe, mic@, anonce@, snonce@, r0kh_id@, r1kh_id@),
{
    let mut ftie: Vec<u8> = Vec::new();
    ftie.push(IE_ID_FTIE);
    ftie.push(((92 + r0kh_id.len() % 256) % 256) as u8);
    if with_rsnxe {
        ftie.push(1);
        ftie.push(4);
    } else {
        ftie.push(0);
        ftie.push(3);
    }
    bytes::append(&mut ftie, mic);
    bytes::append(&mut ftie, anonce);
    bytes::append(&mut ftie, snonce);
    ftie.push(FTIE_SUBELEM_R1KH_ID);
    ftie.push(6);
    bytes::append(&mut ftie, r1kh_id);
    ftie.push(FTIE_SUBELEM_R0KH_ID);
    ftie.push((r0kh_id.len() % 256) as u8);
    bytes::append(&mut ftie, r0kh_id);
    assert(ftie@ =~= ftie_reassoc_octets(
        with_rsnxe,
        mic@,
        anonce@,
        snonce@,
        r0kh_id@,
        r1kh_id@,
    ));
    ftie
}

/// A group key delivered in an FTIE subelement (GTK / IGTK / BIGTK), still
/// AES-Key-Wrapped with the KEK.
#[derive(Debug, Clone, PartialEq, Eq)]
pub struct FtKeySubelem {
    pub key_index: u8,
    /// Receive sequence counter: RSC (8) for the GTK, IPN/BIPN (6) for
    /// IGTK/BIGTK.
    pub rsc: Vec<u8>,
    pub wrapped_key: Vec<u8>,
}

/// Parsed Fast BSS Transition element.
#[derive(Debug, Clone, PartialEq, Eq)]
pub struct FtIe {
    pub mic_control: [u8; 2],
    pub mic: [u8; 16],
    pub anonce: [u8; 32],
    pub snonce: [u8; 32],
    pub r0kh_id: Option<Vec<u8>>,
    pub r1kh_id: Option<[u8; 6]>,
    pub gtk: Option<FtKeySubelem>,
    pub igtk: Option<FtKeySubelem>,
    pub bigtk: Option<FtKeySubelem>,
}

/// A wrapped group key as plain data.
pub struct FtKey {
    pub key_index: u8,
    pub rsc: Seq<u8>,
    pub wrapped_key: Seq<u8>,
}

/// The subelements of an FTIE as plain data.
pub struct FtFields {
    pub r0kh_id: Option<Seq<u8>>,
    pub r1kh_id: Option<Seq<u8>>,
    pub gtk: Option<FtKey>,
    pub igtk: Option<FtKey>,
    pub bigtk: Option<FtKey>,
}

impl View for FtKeySubelem {
    type V = FtKey;

    open spec fn view(&self) -> FtKey {
        FtKey { key_index: self.key_index, rsc: self.rsc@, wrapped_key: self.wrapped_key@ }
    }
}

/// The view of an optional wrapped key.
pub open spec fn opt_ft_key(k: Option<FtKeySubelem>) -> Option<FtKey> {
    match k {
        Some(k) => Some(k@),
        None => None,
    }
}

/// The view of an optional address.
pub open spec fn opt_addr(a: Option<[u8; 6]>) -> Option<Seq<u8>> {
    match a {
        Some(a) => Some(a@),
        None => None,
    }
}

impl FtIe {
    /// Whether this element holds the fields of a body.
    pub open spec fn decodes(self, body: Seq<u8>) -> bool {
        &&& self.mic_control@ == body.subrange(0, 2)
        &&& self.mic@ == body.subrange(2, 18)
        &&& self.anonce@ == body.subrange(18, 50)
        &&& self.snonce@ == body.subrange(50, 82)
        &&& self.fields() == ft_fields(tlv::elements_from(body, 82))
    }

    /// The subelements of this FTIE.
    pub open spec fn fields(self) -> FtFields {
        FtFields {
            r0kh_id: handshake4::opt_bytes(self.r0kh_id),
            r1kh_id: opt_addr(self.r1kh_id),
            gtk: opt_ft_key(self.gtk),
            igtk: opt_ft_key(self.igtk),
            bigtk: opt_ft_key(self.bigtk),
        }
    }
}

/// The GTK in its subelement: Key Info (2), Key Length (1), RSC (8), wrapped
/// key; none where it is cut short.
pub open spec fn ft_gtk(body: Seq<u8>) -> Option<FtKey> {
    if body.len() < 11 {
        None
    } else {
        Some(
            FtKey {
                key_index: body[0] & 0x03,
                rsc: body.subrange(3, 11),
                wrapped_key: body.subrange(11, body.len() as int),
            },
        )
    }
}

/// The IGTK or BIGTK in its subelement: Key Info (2), IPN (6), Key Length
/// (1), wrapped key; none where it is cut short.
pub open spec fn ft_mgmt_key(body: Seq<u8>) -> Option<FtKey> {
    if body.len() < 9 {
        None
    } else {
        Some(
            FtKey {
                key_index: body[0],
                rsc: body.subrange(2, 8),
                wrapped_key: body.subrange(9, body.len() as int),
            },
        )
    }
}

/// What is known after one more subelement: it replaces what an earlier one
/// of its kind said.
pub open spec fn with_subelement(f: FtFields, e: tlv::Element) -> FtFields {
    if e.id == FTIE_SUBELEM_R0KH_ID {
        FtFields { r0kh_id: Some(e.body), ..f }
    } else if e.id == FTIE_SUBELEM_R1KH_ID && e.body.len() == 6 {
        FtFields { r1kh_id: Some(e.body), ..f }
    } else if e.id == FTIE_SUBELEM_GTK {
        FtFields { gtk: ft_gtk(e.body), ..f }
    } else if e.id == FTIE_SUBELEM_IGTK {
        FtFields { igtk: ft_mgmt_key(e.body), ..f }
    } else if e.id == FTIE_SUBELEM_BIGTK {
        FtFields { bigtk: ft_mgmt_key(e.body), ..f }
    } else {
        f
    }
}

/// What a list of subelements says: the last of each kind.
pub open spec fn ft_fields(list: Seq<tlv::Element>) -> FtFields
    decreases list.len(),
{
    if list.len() == 0 {
        FtFields { r0kh_id: None, r1kh_id: None, gtk: None, igtk: None, bigtk: None }
    } else {
        with_subelement(ft_fields(list.drop_last()), list.last())
    }
}

/// Parse a GTK subelement body.
fn parse_ft_gtk(body: &[u8]) -> (r: Option<FtKeySubelem>)
    ensures
        opt_ft_key(r) == ft_gtk(body@),
{
    // Key Info[2] | Key Length[1] | RSC[8] | wrapped Key (802.11-2020
    // §9.4.2.48.3).
    if body.len() < 11 {
        return None;
    }
    Some(
        FtKeySubelem {
            key_index: body[0] & 0x03,
            rsc: bytes::sub_vec(body, 3, 11),
            wrapped_key: bytes::sub_vec(body, 11, body.len()),
        },
    )
}

/// Parse an IGTK or BIGTK subelement body.
fn parse_ft_mgmt_key(body: &[u8]) -> (r: Option<FtKeySubelem>)
    ensures
        opt_ft_key(r) == ft_mgmt_key(body@),
{
    // Key Info[2] | IPN[6] | Key Length[1] | wrapped Key. Key Info carries the
    // full key index (4-7), not a GTK index masked to two bits.
    if body.len() < 9 {
        return None;
    }
    Some(
        FtKeySubelem {
            key_index: body[0],
            rsc: bytes::sub_vec(body, 2, 8),
            wrapped_key: bytes::sub_vec(body, 9, body.len()),
        },
    )
}

/// Parse a Fast BSS Transition element body (after the IE header): the fixed
/// part MIC Control(2) || MIC(16) || ANonce(32) || SNonce(32), then the
/// subelements.
pub fn parse_ftie(body: &[u8]) -> (r: Option<FtIe>)
    ensures
        r is Some <==> body@.len() >= 82,
        r matches Some(f) ==> {
            &&& f.mic_control@ == body@.subrange(0, 2)
            &&& f.mic@ == body@.subrange(2, 18)
            &&& f.anonce@ == body@.subrange(18, 50)
            &&& f.snonce@ == body@.subrange(50, 82)
            &&& f.fields() == ft_fields(tlv::elements_from(body@, 82))
            &&& f.decodes(body@)
        },
{
    if body.len() < 82 {
        return None;
    }
    let mic_control: [u8; 2] = [body[0], body[1]];
    assert(mic_control@ =~= body@.subrange(0, 2));
    let mut ftie = FtIe {
        mic_control,
        mic: bytes::array16(body, 2),
        anonce: bytes::array32(body, 18),
        snonce: bytes::array32(body, 50),
        r0kh_id: None,
        r1kh_id: None,
        gtk: None,
        igtk: None,
        bigtk: None,
    };
    let ghost fixed = ftie;
    let mut pos: usize = 82;
    let ghost mut done: Seq<tlv::Element> = Seq::empty();
    assert(done + tlv::elements_from(body@, 82) =~= tlv::elements_from(body@, 82));
    loop
        invariant
            82 <= pos <= body@.len(),
            ftie.mic_control == fixed.mic_control,
            ftie.mic == fixed.mic,
            ftie.anonce == fixed.anonce,
            ftie.snonce == fixed.snonce,
            ftie.fields() == ft_fields(done),
            tlv::elements_from(body@, 82) == done + tlv::elements_from(body@, pos as int),
        ensures
            ftie.fields() == ft_fields(tlv::elements_from(body@, 82)),
        decreases body@.len() - pos,
    {
        match tlv::next_end(body, pos) {
            None => {
                assert(done + tlv::elements_from(body@, pos as int) =~= done);
                break ;
            },
            Some(end) => {
                let ghost e = tlv::element_at(body@, pos as int);
                let id: u8 = body[pos];
                let sub = vstd::slice::slice_subrange(body, pos + 2, end);
                assert(sub@ == e.body);
                if id == FTIE_SUBELEM_R0KH_ID {
                    ftie.r0kh_id = Some(bytes::to_vec(sub));
                } else if id == FTIE_SUBELEM_R1KH_ID && sub.len() == 6 {
                    let addr = bytes::array6(sub, 0);
                    assert(addr@ =~= e.body);
                    ftie.r1kh_id = Some(addr);
                } else if id == FTIE_SUBELEM_GTK {
                    ftie.gtk = parse_ft_gtk(sub);
                } else if id == FTIE_SUBELEM_IGTK {
                    ftie.igtk = parse_ft_mgmt_key(sub);
                } else if id == FTIE_SUBELEM_BIGTK {
                    ftie.bigtk = parse_ft_mgmt_key(sub);
                }
                proof {
                    let next = done.push(e);
                    assert(next.drop_last() =~= done);
                    assert(ftie.fields() == ft_fields(next));
                    assert(done + (seq![e] + tlv::elements_from(body@, end as int)) =~= next
                        + tlv::elements_from(body@, end as int));
                    done = next;
                }
                pos = end;
            },
        }
    }
    Some(ftie)
}

/// Unwrap a group key from an FTIE subelement with the KEK.
pub fn unwrap_ft_key(kek: &[u8; 16], subelem: &FtKeySubelem) -> (r: Result<Vec<u8>, WifiError>)
    ensures
        r matches Ok(key) ==> key@.len() + 8 == subelem.wrapped_key@.len(),
        match handshake4::key_unwrap(kek@, subelem.wrapped_key@) {
            Ok(key) => r matches Ok(out) && out@ == key,
            Err(msg) => r matches Err(e) && e.is(
                ErrorKind::HandshakeFailed,
                "FT key unwrap failed: "@ + ("handshake-failed"@ + ": "@ + msg),
            ),
        },
{
    match handshake4::aes_key_unwrap(kek, subelem.wrapped_key.as_slice()) {
        Ok(key) => Ok(key),
        Err(e) => {
            let inner = e.to_text();
            let msg = text::text2("FT key unwrap failed: ", inner.as_str());
            Err(WifiError::new(ErrorKind::HandshakeFailed, msg.as_str()))
        },
    }
}

/// An FT Authentication request carries its SNonce and R0KH-ID: parsing the
/// body of the built element gives both back, for an R0KH-ID that fits in
/// the element.
pub proof fn law_ftie_auth_roundtrip(snonce: Seq<u8>, r0kh_id: Seq<u8>)
    requires
        snonce.len() == 32,
        84 + r0kh_id.len() < 256,
    ensures
        ({
            let e = ftie_auth_octets(snonce, r0kh_id);
            let body = e.subrange(2, e.len() as int);
            &&& tlv::elements_from(e, 0) == seq![tlv::Element { id: IE_ID_FTIE, body }]
            &&& body.len() >= 82
            &&& body.subrange(50, 82) == snonce
            &&& ft_fields(tlv::elements_from(body, 82)) == (FtFields {
                r0kh_id: Some(r0kh_id),
                r1kh_id: None,
                gtk: None,
                igtk: None,
                bigtk: None,
            })
        }),
{
    let e = ftie_auth_octets(snonce, r0kh_id);
    let body = e.subrange(2, e.len() as int);
    assert(body.len() == 84 + r0kh_id.len());
    tlv::lemma_single(e, 0);
    assert(tlv::element_at(e, 0).body =~= body);
    assert(body.subrange(50, 82) =~= snonce);
    assert(body[82] == FTIE_SUBELEM_R0KH_ID && body[83] == r0kh_id.len());
    tlv::lemma_single(body, 82);
    let sub = tlv::element_at(body, 82);
    assert(sub.body =~= r0kh_id);
    let list = tlv::elements_from(body, 82);
    assert(list.drop_last() =~= Seq::<tlv::Element>::empty());
    reveal_with_fuel(ft_fields, 2);
}

/// An FT Reassociation Request carries its MIC, both nonces and both key
/// holders: parsing the body of the built element gives all of them back, for
/// an R0KH-ID that fits in the element. The MIC is the one over the elements
/// with the MIC field of the FTIE zero, and the MIC Control tells how many
/// elements it covers.
pub proof fn law_ftie_reassoc_roundtrip(
    kck: Seq<u8>,
    sta_addr: Seq<u8>,
    ap_addr: Seq<u8>,
    anonce: Seq<u8>,
    snonce: Seq<u8>,
    r0kh_id: Seq<u8>,
    r1kh_id: Seq<u8>,
    rsne: Seq<u8>,
    mdie: Seq<u8>,
    rsnxe: Option<Seq<u8>>,
    r: Result<Vec<u8>, WifiError>,
)
    requires
        anonce.len() == 32,
        snonce.len() == 32,
        r1kh_id.len() == 6,
        92 + r0kh_id.len() < 256,
        reassoc_ftie_built(
            kck,
            sta_addr,
            ap_addr,
            anonce,
            snonce,
            r0kh_id,
            r1kh_id,
            rsne,
            mdie,
            rsnxe,
            r,
        ),
    ensures
        ({
            let e = r->Ok_0@;
            let body = e.subrange(2, e.len() as int);
            let zeroed = e.subrange(0, 4) + bytes::zeros(16) + e.subrange(20, e.len() as int);
            &&& e[0] == IE_ID_FTIE
            &&& e[1] == e.len() - 2
            &&& tlv::elements_from(e, 0) == seq![tlv::Element { id: IE_ID_FTIE, body }]
            &&& body.len() >= 82
            &&& body.subrange(0, 2) == if rsnxe is Some {
                seq![1u8, 4]
            } else {
                seq![0u8, 3]
            }
            &&& body.subrange(2, 18) == reassoc_mic(
                kck,
                sta_addr,
                ap_addr,
                rsne,
                mdie,
                zeroed,
                rsnxe,
            )
            &&& body.subrange(18, 50) == anonce
            &&& body.subrange(50, 82) == snonce
            &&& ft_fields(tlv::elements_from(body, 82)) == (FtFields {
                r0kh_id: Some(r0kh_id),
                r1kh_id: Some(r1kh_id),
                gtk: None,
                igtk: None,
                bigtk: None,
            })
        }),
{
    let e = r->Ok_0@;
    let built = ftie_reassoc_octets(
        rsnxe is Some,
        bytes::zeros(16),
        anonce,
        snonce,
        r0kh_id,
        r1kh_id,
    );
    let mic = reassoc_mic(kck, sta_addr, ap_addr, rsne, mdie, built, rsnxe);
    assert(e.subrange(0, 4) + bytes::zeros(16) + e.subrange(20, e.len() as int) =~= built);
    let body = e.subrange(2, e.len() as int);
    assert(body.len() == 92 + r0kh_id.len());
    tlv::lemma_single(e, 0);
    assert(tlv::element_at(e, 0).body =~= body);
    assert(body.subrange(0, 2) =~= if rsnxe is Some {
        seq![1u8, 4]
    } else {
        seq![0u8, 3]
    });
    assert(body.subrange(2, 18) =~= mic);
    assert(body.subrange(18, 50) =~= anonce);
    assert(body.subrange(50, 82) =~= snonce);
    assert(body[82] == FTIE_SUBELEM_R1KH_ID && body[83] == 6);
    assert(body[90] == FTIE_SUBELEM_R0KH_ID && body[91] == r0kh_id.len());
    let first = tlv::element_at(body, 82);
    let second = tlv::element_at(body, 90);
    assert(first.body =~= r1kh_id);
    assert(second.body =~= r0kh_id);
    tlv::lemma_single(body, 90);
    let list = tlv::elements_from(body, 82);
    assert(list =~= seq![first, second]);
    assert(list.drop_last() =~= seq![first]);
    assert(list.drop_last().drop_last() =~= Seq::<tlv::Element>::empty());
    reveal_with_fuel(ft_fields, 3);
}

/// Two built RSNEs that match when PMKIDs are ignored have one AKM, the same
/// capabilities and the same group management cipher.
pub proof fn law_match_tells_the_rest_apart(
    akm_a: u32,
    akm_b: u32,
    caps_a: u16,
    caps_b: u16,
    p: Option<[u8; 16]>,
    q: Option<[u8; 16]>,
    mgmt_a: CipherSuite,
    mgmt_b: CipherSuite,
)
    requires
        rsne_same_but_pmkids(
            rsne_octets(akm_a, caps_a, p, mgmt_a),
            rsne_octets(akm_b, caps_b, q, mgmt_b),
        ),
    ensures
        akm_a == akm_b,
        caps_a == caps_b,
        mgmt_a.spec_selector() == mgmt_b.spec_selector(),
{
    lemma_without_pmkids(akm_a, caps_a, p, mgmt_a);
    lemma_without_pmkids(akm_b, caps_b, q, mgmt_b);
    let x = without_pmkids(rsne_body(rsne_octets(akm_a, caps_a, p, mgmt_a)))->0;
    let y = without_pmkids(rsne_body(rsne_octets(akm_b, caps_b, q, mgmt_b)))->0;
    assert(x == y);
    assert(x.subrange(14, 18) =~= bytes::le32_bytes(akm_a));
    assert(y.subrange(14, 18) =~= bytes::le32_bytes(akm_b));
    assert(x.subrange(18, 20) =~= bytes::le16_bytes(caps_a));
    assert(y.subrange(18, 20) =~= bytes::le16_bytes(caps_b));
    assert(x.subrange(20, 24) =~= bytes::le32_bytes(mgmt_a.spec_selector()));
    assert(y.subrange(20, 24) =~= bytes::le32_bytes(mgmt_b.spec_selector()));
    bytes::lemma_u16_bytes(caps_a);
    bytes::lemma_u16_bytes(caps_b);
    lemma_le32_splits(akm_a);
    lemma_le32_splits(akm_b);
    lemma_le32_splits(mgmt_a.spec_selector());
    lemma_le32_splits(mgmt_b.spec_selector());
}

/// Splitting and rejoining a 32-bit value.
proof fn lemma_le32_splits(x: u32)
    ensures
        ({
            let b = bytes::le32_bytes(x);
            bytes::le32(b[0], b[1], b[2], b[3]) == x
        }),
{
}

/// An RSNE matches itself when PMKIDs are ignored.
pub proof fn lemma_same_rsne(rsne: Seq<u8>)
    ensures
        rsne_same_but_pmkids(rsne, rsne),
{
}

} // verus!
