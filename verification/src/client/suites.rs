//! The suites of a connection: which AKM the elements of each security mode
//! name, octet by octet, and which algorithms and keys follow from it.

use vstd::prelude::*;

use crate::bytes;
use crate::client::associate::{
    pmksa_to_cache, security_ie, with_wanted_capabilities,
};
use crate::client::handshake::HandshakeInput;
use crate::client::select::{akm_list, akm_security, elements_security, first_supported};
use crate::client::state::WifiIface;
use crate::crypto::handshake4::{FourWayState, MicAlg};
use crate::crypto::primitives;
use crate::ieee80211::elements;
use crate::ieee80211::elements::CipherSuite;
use crate::ieee80211::tlv;
use crate::scan::SecurityType;

verus! {

/// The suite type of the AKM (00-0F-AC) of a security mode; zero where the
/// mode has none.
pub open spec fn akm_type(mode: SecurityType) -> u8 {
    match mode {
        SecurityType::Wpa2Ent => 1,
        SecurityType::Wpa2Psk => 2,
        SecurityType::FtPsk => 4,
        SecurityType::Wpa2EntSha256 => 5,
        SecurityType::Wpa2PskSha256 => 6,
        SecurityType::Sae => 8,
        SecurityType::FtSae => 9,
        SecurityType::Owe => 18,
        SecurityType::SaeExtKey => 24,
        SecurityType::FtSaeExtKey => 25,
        SecurityType::Open | SecurityType::Unsupported => 0,
    }
}

/// The suite type of a group management cipher (00-0F-AC).
pub open spec fn is_mgmt_suite(cipher: CipherSuite, kind: u8) -> bool {
    match cipher {
        CipherSuite::BipCmac128 => kind == 6,
        CipherSuite::BipGmac128 => kind == 11,
        CipherSuite::BipGmac256 => kind == 12,
        CipherSuite::BipCmac256 => kind == 13,
        CipherSuite::Ccmp128 => kind == 4,
        CipherSuite::Other(_) => true,
    }
}

/// Whether octets start with an RSNE of version 1 with CCMP-128 as group
/// cipher and as the one pairwise cipher, and one AKM 00-0F-AC with a suite
/// type.
pub open spec fn names_akm(e: Seq<u8>, kind: u8) -> bool {
    &&& e.len() >= 22
    &&& e[0] == 48
    &&& e[2] == 1 && e[3] == 0
    &&& e[4] == 0 && e[5] == 0x0f && e[6] == 0xac && e[7] == 4
    &&& e[8] == 1 && e[9] == 0
    &&& e[10] == 0 && e[11] == 0x0f && e[12] == 0xac && e[13] == 4
    &&& e[14] == 1 && e[15] == 0
    &&& e[16] == 0 && e[17] == 0x0f && e[18] == 0xac && e[19] == kind
}

/// The fields of a built RSNE, octet by octet.
#[verifier::spinoff_prover]
#[verifier::rlimit(60)]
pub proof fn law_rsne_layout(kind: u8, caps: u16, pmkid: Option<[u8; 16]>, cipher: CipherSuite)
    ensures
        ({
            let akm = bytes::le32(0, 0x0f, 0xac, kind);
            let e = elements::rsne_octets(akm, caps, pmkid, cipher);
            &&& names_akm(e, kind)
            &&& e[20] == caps % 256 && e[21] == caps / 256
            &&& match pmkid {
                Some(id) => {
                    &&& e.len() == 44 && e[1] == 42
                    &&& e[22] == 1 && e[23] == 0
                    &&& e.subrange(24, 40) == id@
                    &&& !(cipher is Other) ==> e[40] == 0 && e[41] == 0x0f && e[42] == 0xac
                        && is_mgmt_suite(cipher, e[43])
                },
                None => {
                    &&& e.len() == 28 && e[1] == 26
                    &&& e[22] == 0 && e[23] == 0
                    &&& !(cipher is Other) ==> e[24] == 0 && e[25] == 0x0f && e[26] == 0xac
                        && is_mgmt_suite(cipher, e[27])
                },
            }
        }),
{
    let akm = bytes::le32(0, 0x0f, 0xac, kind);
    let rsn = elements::RsnElement {
        version: 1,
        group_cipher: elements::CIPHER_CCMP_128,
        pairwise_cipher: elements::CIPHER_CCMP_128,
        akm,
        capabilities: caps,
        pmkid,
        group_mgmt_cipher: cipher.spec_selector(),
    };
    let body = rsn.body();
    let e = rsn.octets();
    assert(e == elements::rsne_octets(akm, caps, pmkid, cipher));
    assert(bytes::le32_bytes(elements::CIPHER_CCMP_128) =~= seq![0u8, 0x0f, 0xac, 4]);
    assert(bytes::le32_bytes(akm) =~= seq![0u8, 0x0f, 0xac, kind]);
    assert(bytes::le16_bytes(1) =~= seq![1u8, 0]);
    assert(bytes::le16_bytes(0) =~= seq![0u8, 0]);
    assert(e.subrange(2, 4) =~= seq![1u8, 0]);
    assert(e.subrange(4, 8) =~= seq![0u8, 0x0f, 0xac, 4]);
    assert(e.subrange(8, 10) =~= seq![1u8, 0]);
    assert(e.subrange(10, 14) =~= seq![0u8, 0x0f, 0xac, 4]);
    assert(e.subrange(14, 16) =~= seq![1u8, 0]);
    assert(e.subrange(16, 20) =~= seq![0u8, 0x0f, 0xac, kind]);
    assert(e.subrange(20, 22) =~= bytes::le16_bytes(caps));
    assert(e[4] == e.subrange(4, 8)[0] && e[5] == e.subrange(4, 8)[1]);
    assert(e[6] == e.subrange(4, 8)[2] && e[7] == e.subrange(4, 8)[3]);
    assert(e[10] == e.subrange(10, 14)[0] && e[11] == e.subrange(10, 14)[1]);
    assert(e[12] == e.subrange(10, 14)[2] && e[13] == e.subrange(10, 14)[3]);
    assert(e[16] == e.subrange(16, 20)[0] && e[17] == e.subrange(16, 20)[1]);
    assert(e[18] == e.subrange(16, 20)[2] && e[19] == e.subrange(16, 20)[3]);
    assert(e[2] == e.subrange(2, 4)[0] && e[3] == e.subrange(2, 4)[1]);
    assert(e[8] == e.subrange(8, 10)[0] && e[9] == e.subrange(8, 10)[1]);
    assert(e[14] == e.subrange(14, 16)[0] && e[15] == e.subrange(14, 16)[1]);
    assert(e[20] == e.subrange(20, 22)[0] && e[21] == e.subrange(20, 22)[1]);
    let m = bytes::le32_bytes(cipher.spec_selector());
    match pmkid {
        Some(id) => {
            assert(e.len() == 44);
            assert(e.subrange(22, 24) =~= seq![1u8, 0]);
            assert(e[22] == e.subrange(22, 24)[0] && e[23] == e.subrange(22, 24)[1]);
            assert(e.subrange(24, 40) =~= id@);
            assert(e.subrange(40, 44) =~= m);
            assert(e[40] == m[0] && e[41] == m[1] && e[42] == m[2] && e[43] == m[3]);
        },
        None => {
            assert(e.len() == 28);
            assert(e.subrange(22, 24) =~= seq![0u8, 0]);
            assert(e[22] == e.subrange(22, 24)[0] && e[23] == e.subrange(22, 24)[1]);
            assert(e.subrange(24, 28) =~= m);
            assert(e[24] == m[0] && e[25] == m[1] && e[26] == m[2] && e[27] == m[3]);
        },
    }
}

/// The elements of a security mode name the AKM of the mode. Management frame
/// protection is required (capability octet C0) by every SAE mode, by OWE and
/// by 802.1X with SHA-256, and offered (80) by the others. The PMKID is carried
/// by the SAE and PSK modes, and the SAE modes advertise hash-to-element in an
/// RSNXE behind the RSNE.
#[verifier::spinoff_prover]
#[verifier::rlimit(40)]
pub proof fn law_security_elements(
    mode: SecurityType,
    pmkid: Option<[u8; 16]>,
    cipher: CipherSuite,
)
    requires
        mode != SecurityType::Open,
        mode != SecurityType::Unsupported,
    ensures
        ({
            let e = security_ie(mode, pmkid, cipher);
            let kind = akm_type(mode);
            let carries = kind != 1 && kind != 5 && kind != 18 && pmkid is Some;
            let end: int = if carries {
                44
            } else {
                28
            };
            let sae = kind == 8 || kind == 9 || kind == 24 || kind == 25;
            &&& names_akm(e, kind)
            &&& e.len() == (if sae {
                end + 3
            } else {
                end
            })
            &&& e[1] == end - 2
            &&& e[20] == (if sae || kind == 18 || kind == 5 {
                0xc0u8
            } else {
                0x80u8
            })
            &&& e[21] == 0
            &&& carries ==> e[22] == 1 && e[23] == 0 && e.subrange(24, 40) == pmkid->0@
            &&& !carries ==> e[22] == 0 && e[23] == 0
            &&& !(cipher is Other) ==> e[end - 4] == 0 && e[end - 3] == 0x0f && e[end - 2] == 0xac
                && is_mgmt_suite(cipher, e[end - 1])
            &&& e.subrange(end, e.len() as int) == if sae {
                seq![244u8, 1, 0x20]
            } else {
                Seq::<u8>::empty()
            }
        }),
{
    let kind = akm_type(mode);
    let e = security_ie(mode, pmkid, cipher);
    law_rsne_layout(kind, 0x00c0, pmkid, cipher);
    law_rsne_layout(kind, 0x00c0, None, cipher);
    law_rsne_layout(kind, 0x0080, pmkid, cipher);
    law_rsne_layout(kind, 0x0080, None, cipher);
    let carries = kind != 1 && kind != 5 && kind != 18 && pmkid is Some;
    let sae = kind == 8 || kind == 9 || kind == 24 || kind == 25;
    let caps: u16 = if sae || kind == 18 || kind == 5 {
        0x00c0
    } else {
        0x0080
    };
    let akm = bytes::le32(0, 0x0f, 0xac, kind);
    let rsne = elements::rsne_octets(
        akm,
        caps,
        if carries {
            pmkid
        } else {
            None
        },
        cipher,
    );
    if sae {
        assert(e == rsne + elements::sae_rsnxe_octets());
        assert(e.subrange(rsne.len() as int, e.len() as int) =~= seq![244u8, 1, 0x20]);
        if carries {
            assert(e.subrange(24, 40) =~= rsne.subrange(24, 40));
        }
    } else {
        assert(e == rsne);
        assert(e.subrange(rsne.len() as int, e.len() as int) =~= Seq::<u8>::empty());
    }
}

/// A security mode and its AKM determine each other: the AKM of each mode is
/// understood as the mode, and no other selector is understood at all.
pub proof fn law_akm_identifies_mode(mode: SecurityType, akm: u32)
    ensures
        akm_type(mode) != 0 ==> akm_security(bytes::le32(0, 0x0f, 0xac, akm_type(mode))) == mode,
        akm_security(akm) != SecurityType::Open,
        akm_security(akm) != SecurityType::Unsupported ==> akm == bytes::le32(
            0,
            0x0f,
            0xac,
            akm_type(akm_security(akm)),
        ),
{
}

/// A station that offers the elements of a mode is understood as offering that
/// mode.
pub proof fn law_elements_roundtrip(
    mode: SecurityType,
    pmkid: Option<[u8; 16]>,
    cipher: CipherSuite,
)
    requires
        mode != SecurityType::Open,
        mode != SecurityType::Unsupported,
    ensures
        ({
            let e = security_ie(mode, pmkid, cipher);
            first_supported(akm_list(e.subrange(2, 2 + e[1] as int))) == mode
        }),
{
    let e = security_ie(mode, pmkid, cipher);
    law_security_elements(mode, pmkid, cipher);
    law_akm_identifies_mode(mode, 0);
    let body = e.subrange(2, 2 + e[1] as int);
    assert(body[6] == 1 && body[7] == 0 && body[12] == 1 && body[13] == 0);
    assert(elements::akm_offset(body) == Some(12int));
    let list = akm_list(body);
    assert(list.len() == 1);
    assert(list[0] == bytes::le32(0, 0x0f, 0xac, akm_type(mode)));
}

/// Advertising a capability in elements that start with an RSNE of one
/// pairwise cipher and one AKM changes octets 20 and 21 alone.
proof fn lemma_capability_octets(e: Seq<u8>, kind: u8, mask: u16)
    requires
        names_akm(e, kind),
    ensures
        ({
            let out = elements::with_capability(e, mask, true);
            let c = bytes::le16(e[20], e[21]) | mask;
            &&& out.len() == e.len()
            &&& forall|i: int| 0 <= i < e.len() && i != 20 && i != 21 ==> out[i] == e[i]
            &&& names_akm(out, kind)
            &&& bytes::le16(out[20], out[21]) == c
        }),
{
    let body = e.subrange(2, e.len() as int);
    assert(body[6] == 1 && body[7] == 0 && body[12] == 1 && body[13] == 0);
    assert(elements::akm_offset(body) == Some(12int));
    assert(elements::capabilities_offset(body) == Some(18int));
    assert(body[18] == e[20] && body[19] == e[21]);
    bytes::lemma_u16_bytes(bytes::le16(e[20], e[21]) | mask);
}

/// The capabilities that a network asks for are set in octets 20 and 21 of the
/// elements (bit 14 for Operating Channel Validation, bit 13 for Extended Key
/// ID), and nothing else changes.
#[verifier::spinoff_prover]
#[verifier::rlimit(40)]
pub proof fn law_wanted_capabilities(
    mode: SecurityType,
    pmkid: Option<[u8; 16]>,
    cipher: CipherSuite,
    rest: Seq<u8>,
    ocv: bool,
    ext_key_id: bool,
)
    requires
        mode != SecurityType::Open,
        mode != SecurityType::Unsupported,
    ensures
        ({
            let e = security_ie(mode, pmkid, cipher) + rest;
            let out = with_wanted_capabilities(e, ocv, ext_key_id);
            let c = bytes::le16(out[20], out[21]);
            &&& out.len() == e.len()
            &&& forall|i: int| 0 <= i < e.len() && i != 20 && i != 21 ==> out[i] == e[i]
            &&& names_akm(out, akm_type(mode))
            &&& ocv <==> c & 0x4000 != 0
            &&& ext_key_id <==> c & 0x2000 != 0
            &&& c & 0x9fff == e[20]
        }),
{
    let kind = akm_type(mode);
    law_security_elements(mode, pmkid, cipher);
    let e = security_ie(mode, pmkid, cipher) + rest;
    assert(names_akm(e, kind));
    let c0 = bytes::le16(e[20], e[21]);
    lemma_capability_octets(e, kind, 0x4000);
    let first = if ocv {
        elements::with_capability(e, 0x4000, true)
    } else {
        e
    };
    lemma_capability_octets(first, kind, 0x2000);
    assert(c0 == 0x00c0 || c0 == 0x0080);
    assert(0x00c0u16 & 0x4000 == 0 && 0x00c0u16 & 0x2000 == 0 && 0x00c0u16 & 0x9fff == 0x00c0
        && 0x0080u16 & 0x4000 == 0 && 0x0080u16 & 0x2000 == 0 && 0x0080u16 & 0x9fff == 0x0080)
        by (bit_vector);
    assert((c0 | 0x4000) & 0x4000 != 0 && (c0 | 0x4000) & 0x2000 == c0 & 0x2000 && (c0 | 0x4000)
        & 0x9fff == c0 & 0x9fff) by (bit_vector);
    let c1 = bytes::le16(first[20], first[21]);
    assert((c1 | 0x2000) & 0x2000 != 0 && (c1 | 0x2000) & 0x4000 == c1 & 0x4000 && (c1 | 0x2000)
        & 0x9fff == c1 & 0x9fff) by (bit_vector);
}

/// The MIC algorithm of an AKM (00-0F-AC): HMAC-SHA1 for 802.1X and PSK,
/// HMAC-SHA256 for OWE and SAE-EXT-KEY, AES-CMAC for the others.
pub open spec fn follows_akm(alg: MicAlg, kind: u8) -> bool {
    &&& kind == 1 || kind == 2 ==> alg == MicAlg::HmacSha1
    &&& kind == 5 || kind == 6 || kind == 8 ==> alg == MicAlg::AesCmac
    &&& kind == 4 || kind == 9 || kind == 25 ==> alg == MicAlg::AesCmac
    &&& kind == 18 || kind == 24 ==> alg == MicAlg::HmacSha256
}

/// The algorithm of a handshake follows from the AKM in the RSNE of its
/// Message 2: HMAC-SHA1 with 00-0F-AC:1 and :2, AES-CMAC with :5, :6 and :8 and
/// the fast transition AKMs :4, :9 and :25, HMAC-SHA256 with :18 and :24. Over
/// a cached PMK it is the algorithm cached with it.
#[verifier::spinoff_prover]
#[verifier::rlimit(40)]
pub proof fn law_mic_algorithm_follows_akm(
    iface: WifiIface,
    input: HandshakeInput,
    fw: FourWayState,
)
    requires
        iface.handshake_input() == Some(input),
        iface.begins_with(fw, input),
        iface.link.pmksa_in_use matches Some(entry) ==> follows_akm(
            entry.mic_alg,
            akm_type(iface.link.bss_info.security),
        ) && akm_type(iface.link.bss_info.security) != 0,
    ensures
        exists|kind: u8|
            {
                &&& #[trigger] names_akm(fw.rsne@, kind)
                &&& kind != 0
                &&& follows_akm(fw.mic_alg, kind)
                &&& iface.link.bss_info.security.spec_is_ft() <==> kind == 4 || kind == 9 || kind
                    == 25
                &&& akm_type(iface.link.bss_info.security) != 0 ==> kind == akm_type(
                    iface.link.bss_info.security,
                )
            },
{
    let security = iface.link.bss_info.security;
    let cipher = iface.link.bss_info.group_mgmt_cipher;
    let (ocv, ext) = (iface.link.network.ocv, iface.link.network.ext_key_id);
    if security.spec_is_ft() {
        let ft = iface.link.ft->0;
        law_wanted_capabilities(
            security,
            Some(ft.pmk_r1.name),
            cipher,
            ft.assoc_resp_ft_ies@,
            ocv,
            ext,
        );
        assert(names_akm(fw.rsne@, akm_type(security)));
    } else {
        match iface.link.pmksa_in_use {
            Some(entry) => {
                let e = security_ie(security, Some(entry.pmkid), cipher);
                law_wanted_capabilities(
                    security,
                    Some(entry.pmkid),
                    cipher,
                    Seq::empty(),
                    ocv,
                    ext,
                );
                assert(e + Seq::<u8>::empty() =~= e);
                assert(names_akm(fw.rsne@, akm_type(security)));
            },
            None => {
                let mode = iface.fresh_pmk().1;
                let e = security_ie(mode, None, cipher);
                law_wanted_capabilities(mode, None, cipher, Seq::empty(), ocv, ext);
                assert(e + Seq::<u8>::empty() =~= e);
                assert(names_akm(fw.rsne@, akm_type(mode)));
            },
        }
    }
}

/// The PMK of a handshake without a cached one follows from the AKM in the RSNE
/// of its Message 2: that of the pre-shared key with 00-0F-AC:2 and :6, that of
/// EAP with :1 and :5, that of the SAE exchange with :8 and :24, that of the OWE
/// exchange with :18.
pub proof fn law_pmk_follows_akm(
    iface: WifiIface,
    input: HandshakeInput,
    fw: FourWayState,
    kind: u8,
)
    requires
        iface.handshake_input() == Some(input),
        iface.begins_with(fw, input),
        iface.link.pmksa_in_use is None,
        names_akm(fw.rsne@, kind),
    ensures
        kind == 2 || kind == 6 ==> (iface.auth.psk_pmk matches Some(pmk) && fw.pmk@ == pmk@),
        kind == 1 || kind == 5 ==> (iface.auth.eap_pmk matches Some(pmk) && fw.pmk@ == pmk@),
        kind == 8 || kind == 24 ==> (iface.auth.method matches Some(m) && (m.exchange().pmk matches
            Some(pmk) && fw.pmk@ == pmk@)),
        kind == 18 ==> (iface.auth.owe matches Some(o) && (o.pmk matches Some(pmk) && fw.pmk@
            == pmk@)),
        kind == 4 || kind == 9 || kind == 25 ==> (iface.link.ft matches Some(ft) && fw.ft_pmk_r1
            == Some(ft.pmk_r1)),
        kind != 4 && kind != 9 && kind != 25 ==> fw.ft_pmk_r1 is None,
{
    law_mic_algorithm_follows_akm(iface, input, fw);
}

/// What a completed handshake caches: the PMK under the algorithm of its AKM,
/// with the PMKID of the SAE exchange, or for a pre-shared key the first 16
/// octets of the HMAC over `PMK Name`, the address of the AP and our own, with
/// SHA-1 for 00-0F-AC:2 and SHA-256 for :6. It lives for twelve hours.
pub proof fn law_cached_association(iface: WifiIface, now: u64)
    requires
        now <= u64::MAX - 43200,
    ensures
        ({
            let kind = akm_type(iface.link.bss_info.security);
            let name = seq![0x50u8, 0x4d, 0x4b, 0x20, 0x4e, 0x61, 0x6d, 0x65]
                + iface.link.bss_info.bssid@ + iface.core.mac@;
            match pmksa_to_cache(iface, now) {
                Some(p) => {
                    &&& p.expires == now + 43200
                    &&& match iface.link.pmksa_in_use {
                        Some(e) => {
                            &&& p.ssid == e.ssid@
                            &&& p.bssid == e.bssid@
                            &&& p.pmkid == e.pmkid@
                            &&& p.pmk == e.pmk@
                            &&& p.mic_alg == e.mic_alg
                        },
                        None => {
                            &&& kind == 2 || kind == 6 || kind == 8 || kind == 24
                            &&& follows_akm(p.mic_alg, kind)
                            &&& p.ssid == iface.link.network.ssid@
                            &&& p.bssid == iface.link.bss_info.bssid@
                            &&& kind == 2 ==> p.pmkid == primitives::hmac_sha1(
                                p.pmk,
                                name,
                            ).subrange(0, 16)
                            &&& kind == 6 ==> p.pmkid == primitives::hmac_sha256(
                                p.pmk,
                                name,
                            ).subrange(0, 16)
                            &&& kind == 2 || kind == 6 ==> (iface.auth.psk_pmk matches Some(pmk)
                                && p.pmk == pmk@)
                            &&& kind == 8 || kind == 24 ==> (iface.auth.method matches Some(m) && (
                            m.exchange().pmk matches Some(pmk) && p.pmk == pmk@) && (
                            m.exchange().pmkid matches Some(id) && p.pmkid == id@))
                        },
                    }
                },
                None => {
                    &&& iface.link.pmksa_in_use is None
                    &&& kind == 2 || kind == 6 ==> iface.auth.psk_pmk is None
                },
            }
        }),
{
}

/// No list of AKMs is taken for an open network.
proof fn lemma_akms_are_not_open(akms: Seq<u32>)
    ensures
        first_supported(akms) != SecurityType::Open,
    decreases akms.len(),
{
    if akms.len() > 0 {
        lemma_akms_are_not_open(akms.drop_first());
    }
}

/// Only a BSS with no RSNE and no privacy is taken for open, and one whose
/// elements hold an RSNE has the mode of the first AKM in it that is
/// understood.
pub proof fn law_open_needs_no_rsne(ies: Seq<u8>, privacy: bool)
    ensures
        elements_security(ies, privacy) == SecurityType::Open <==> !privacy && tlv::first_with(
            tlv::elements_from(ies, 0),
            48,
        ) is None,
{
    match tlv::first_with(tlv::elements_from(ies, 0), 48) {
        Some(e) => {
            lemma_akms_are_not_open(akm_list(e.body));
        },
        None => {},
    }
}

/// The families of modes by their AKM: fast transition with 4, 9 and 25, a
/// passphrase proved in the handshake with 2, 4 and 6, SAE with 8, 9, 24 and 25,
/// and 802.1X with 1 and 5.
pub proof fn law_mode_families(mode: SecurityType)
    ensures
        ({
            let kind = akm_type(mode);
            &&& mode.spec_is_ft() <==> kind == 4 || kind == 9 || kind == 25
            &&& mode.spec_is_psk() <==> kind == 2 || kind == 4 || kind == 6
            &&& mode.spec_is_sae() <==> kind == 8 || kind == 9 || kind == 24 || kind == 25
            &&& mode.spec_is_enterprise() <==> kind == 1 || kind == 5
        }),
{
}

/// The body of an RSNE as an access point writes it: the version, the group
/// cipher, the pairwise ciphers and the AKMs behind their counts (at most 255
/// each), four octets to each suite, then the capabilities and what follows.
pub open spec fn ap_rsne_body(
    group: Seq<u8>,
    pairwise: Seq<u8>,
    akms: Seq<u8>,
    caps: Seq<u8>,
    rest: Seq<u8>,
) -> Seq<u8> {
    seq![1u8, 0] + group + seq![(pairwise.len() / 4) as u8, 0] + pairwise + seq![
        (akms.len() / 4) as u8,
        0,
    ] + akms + caps + rest
}

/// The AKMs and the capabilities of an access point are read as it wrote them,
/// however many ciphers and AKMs it lists.
pub proof fn law_ap_rsne_is_read(
    group: Seq<u8>,
    pairwise: Seq<u8>,
    akms: Seq<u8>,
    caps: Seq<u8>,
    rest: Seq<u8>,
    i: int,
)
    requires
        group.len() == 4,
        pairwise.len() % 4 == 0,
        pairwise.len() < 1024,
        akms.len() % 4 == 0,
        akms.len() < 1024,
        caps.len() == 2,
    ensures
        ({
            let body = ap_rsne_body(group, pairwise, akms, caps, rest);
            let list = akm_list(body);
            &&& elements::capabilities(body) == Some((caps[0] + 256 * caps[1]) as u16)
            &&& list.len() == akms.len() / 4
            &&& 0 <= i < list.len() ==> list[i] == bytes::le32(
                akms[4 * i],
                akms[4 * i + 1],
                akms[4 * i + 2],
                akms[4 * i + 3],
            )
        }),
{
    let body = ap_rsne_body(group, pairwise, akms, caps, rest);
    let off = 8 + pairwise.len() as int;
    let cap = off + 2 + akms.len() as int;
    assert(body.len() == cap + 2 + rest.len());
    assert(body[6] == (pairwise.len() / 4) as u8 && body[7] == 0);
    assert(elements::akm_offset(body) == Some(off));
    assert(body[off] == (akms.len() / 4) as u8 && body[off + 1] == 0);
    assert(elements::capabilities_offset(body) == Some(cap));
    assert(body[cap] == caps[0] && body[cap + 1] == caps[1]);
    let list = akm_list(body);
    let room = (body.len() - off - 2) / 4;
    assert(room >= akms.len() / 4);
    if 0 <= i < list.len() {
        let at = off + 2 + 4 * i;
        assert(body[at] == akms[4 * i] && body[at + 1] == akms[4 * i + 1]);
        assert(body[at + 2] == akms[4 * i + 2] && body[at + 3] == akms[4 * i + 3]);
    }
}

/// The group management cipher of a connection is the one that the access point
/// names behind its PMKIDs, where that is BIP-GMAC-128 (11), BIP-GMAC-256 (12) or
/// BIP-CMAC-256 (13), and BIP-CMAC-128 otherwise.
#[verifier::spinoff_prover]
#[verifier::rlimit(40)]
pub proof fn law_negotiated_cipher(
    group: Seq<u8>,
    pairwise: Seq<u8>,
    akms: Seq<u8>,
    caps: Seq<u8>,
    pmkids: Seq<u8>,
    kind: u8,
    n: u8,
)
    requires
        group.len() == 4,
        pairwise.len() % 4 == 0,
        pairwise.len() < 1024,
        akms.len() % 4 == 0,
        akms.len() < 1024,
        caps.len() == 2,
        pmkids.len() % 16 == 0,
        pmkids.len() < 4096,
    ensures
        ({
            let tail = seq![(pmkids.len() / 16) as u8, 0] + pmkids + seq![0u8, 0x0f, 0xac, kind];
            let body = ap_rsne_body(group, pairwise, akms, caps, tail);
            let short = ap_rsne_body(group, pairwise, akms, caps, Seq::empty());
            &&& elements::negotiated_cipher(seq![48u8, n] + body) == if kind == 11 {
                CipherSuite::BipGmac128
            } else if kind == 12 {
                CipherSuite::BipGmac256
            } else if kind == 13 {
                CipherSuite::BipCmac256
            } else {
                CipherSuite::BipCmac128
            }
            &&& elements::negotiated_cipher(seq![48u8, n] + short) == CipherSuite::BipCmac128
        }),
{
    let tail = seq![(pmkids.len() / 16) as u8, 0] + pmkids + seq![0u8, 0x0f, 0xac, kind];
    let body = ap_rsne_body(group, pairwise, akms, caps, tail);
    let short = ap_rsne_body(group, pairwise, akms, caps, Seq::empty());
    let off = 8 + pairwise.len() as int;
    let cap = off + 2 + akms.len() as int;
    assert(body[6] == (pairwise.len() / 4) as u8 && body[7] == 0);
    assert(short[6] == (pairwise.len() / 4) as u8 && short[7] == 0);
    assert(body[off] == (akms.len() / 4) as u8 && body[off + 1] == 0);
    assert(short[off] == (akms.len() / 4) as u8 && short[off + 1] == 0);
    assert(elements::capabilities_offset(body) == Some(cap));
    assert(elements::capabilities_offset(short) == Some(cap));
    assert(body[cap + 2] == (pmkids.len() / 16) as u8 && body[cap + 3] == 0);
    let at = cap + 4 + pmkids.len() as int;
    assert(body[at] == 0 && body[at + 1] == 0x0f && body[at + 2] == 0xac && body[at + 3] == kind);
    let e = seq![48u8, n] + body;
    assert(e.subrange(2, e.len() as int) =~= body);
    let f = seq![48u8, n] + short;
    assert(f.subrange(2, f.len() as int) =~= short);
}

/// Operating Channel Validation and Extended Key ID are used exactly where the
/// network asks for them and the access point advertises them: bits 6 and 5 of
/// the second capability octet.
pub proof fn law_features_are_agreed_on(iface: WifiIface, kind: u8)
    requires
        names_akm(iface.link.bss_info.ap_rsne@, kind),
    ensures
        ({
            let hi = iface.link.bss_info.ap_rsne@[21];
            &&& iface.link.wants_ocv() <==> iface.link.network.ocv && hi & 0x40 != 0
            &&& iface.link.wants_ext_key_id() <==> iface.link.network.ext_key_id && hi & 0x20 != 0
        }),
{
    let rsne = iface.link.bss_info.ap_rsne@;
    let body = rsne.subrange(2, rsne.len() as int);
    assert(body[6] == 1 && body[7] == 0 && body[12] == 1 && body[13] == 0);
    assert(elements::akm_offset(body) == Some(12int));
    assert(elements::capabilities_offset(body) == Some(18int));
    assert(body[18] == rsne[20] && body[19] == rsne[21]);
    let (lo, hi) = (rsne[20], rsne[21]);
    assert((((lo as u16) + 256 * (hi as u16)) as u16 & 0x4000 != 0 <==> hi & 0x40 != 0) && (((
    lo as u16) + 256 * (hi as u16)) as u16 & 0x2000 != 0 <==> hi & 0x20 != 0)) by (bit_vector);
}

/// A handshake is between us and the access point that was selected, and holds
/// that one's elements to Message 3.
pub proof fn law_handshake_is_with_the_selected_ap(
    iface: WifiIface,
    input: HandshakeInput,
    fw: FourWayState,
)
    requires
        iface.handshake_input() == Some(input),
        iface.begins_with(fw, input),
    ensures
        fw.mac_sta == iface.core.mac,
        fw.mac_ap == iface.link.bss_info.bssid,
        fw.ap_rsne@ == iface.link.bss_info.ap_rsne@,
        fw.ap_rsnxe@ == iface.link.bss_info.ap_rsnxe@,
        fw.ext_key_id == iface.link.wants_ext_key_id(),
        fw.ocv is Some <==> iface.link.wants_ocv(),
        fw.ocv matches Some(o) ==> o.freq_mhz == iface.link.bss_info.freq_mhz,
        fw.ptk is None && fw.anonce is None && fw.gtk is None && fw.replay_counter == 0,
        iface.link.pmksa_in_use matches Some(e) ==> (!iface.link.bss_info.security.spec_is_ft()
            ==> fw.pmk@ == e.pmk@ && fw.mic_alg == e.mic_alg),
{
}

} // verus!
