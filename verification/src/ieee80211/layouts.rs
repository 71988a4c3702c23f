//! Frames and elements octet by octet: where each field stands and which
//! numbers tell the kinds apart.

use vstd::prelude::*;

use crate::bytes;
use crate::crypto::ft;
use crate::crypto::ocv;
use crate::crypto::primitives;
use crate::error::WifiError;
use crate::ieee80211::assoc;
use crate::ieee80211::auth;
use crate::ieee80211::band;
use crate::ieee80211::eapol;
use crate::ieee80211::eapol::EapolKeyFrame;
use crate::ieee80211::elements;
use crate::ieee80211::rrm;
use crate::ieee80211::tlv;
use crate::ieee80211::wnm;

verus! {

// ---- Element lists ----

/// Elements are read alike wherever in the octets they stand.
proof fn lemma_elements_shift(a: Seq<u8>, t: Seq<u8>, pos: int)
    requires
        0 <= pos,
    ensures
        tlv::elements_from(a + t, a.len() + pos) == tlv::elements_from(t, pos),
    decreases t.len() - pos,
{
    let s = a + t;
    let at = a.len() + pos;
    if pos + 2 <= t.len() {
        assert(s[at] == t[pos] && s[at + 1] == t[pos + 1]);
    }
    if tlv::complete_at(t, pos) {
        lemma_elements_shift(a, t, tlv::end_at(t, pos));
        assert(tlv::element_at(s, at).body =~= tlv::element_at(t, pos).body);
    }
}

/// A list is read element by element: its first two octets are the identifier
/// and the length of the first, whose body follows, and the others come after
/// it.
pub proof fn law_elements_in_order(id: u8, body: Seq<u8>, rest: Seq<u8>)
    requires
        body.len() < 256,
    ensures
        tlv::elements_from(seq![id, body.len() as u8] + body + rest, 0) == seq![
            tlv::Element { id, body },
        ] + tlv::elements_from(rest, 0),
{
    let head = seq![id, body.len() as u8] + body;
    let s = head + rest;
    assert(s[0] == id && s[1] == body.len());
    assert(s.subrange(2, 2 + body.len() as int) =~= body);
    lemma_elements_shift(head, rest, 0);
}

/// A list that ends within an element has nothing more to say.
pub proof fn law_cut_element_ends_the_list(id: u8, len: u8, part: Seq<u8>)
    requires
        part.len() < len,
    ensures
        tlv::elements_from(seq![id, len] + part, 0).len() == 0,
        tlv::elements_from(seq![id], 0).len() == 0,
{
    assert((seq![id, len] + part)[1] == len);
}

// ---- Authentication and association ----

/// An SAE Authentication frame: Frame Control B0 00, no duration, the AP as
/// receiver, the station as sender, the AP as BSSID, then at octet 24 the
/// algorithm 3, the transaction and the status, least significant octet first,
/// and the payload from octet 30 on.
pub proof fn law_sae_frame_on_the_wire(
    sta: Seq<u8>,
    bssid: Seq<u8>,
    auth_seq: u16,
    status: u16,
    payload: Seq<u8>,
)
    requires
        sta.len() == 6,
        bssid.len() == 6,
    ensures
        ({
            let f = auth::sae_auth_frame(sta, bssid, auth_seq, status, payload);
            &&& f.len() == 30 + payload.len()
            &&& f[0] == 0xb0 && f[1] == 0 && f[2] == 0 && f[3] == 0
            &&& f.subrange(4, 10) == bssid
            &&& f.subrange(10, 16) == sta
            &&& f.subrange(16, 22) == bssid
            &&& f[22] == 0 && f[23] == 0
            &&& f[24] == 3 && f[25] == 0
            &&& f[26] + 256 * f[27] == auth_seq
            &&& f[28] + 256 * f[29] == status
            &&& f.subrange(30, f.len() as int) == payload
        }),
{
    let f = auth::sae_auth_frame(sta, bssid, auth_seq, status, payload);
    auth::law_sae_auth_frame_roundtrip(sta, bssid, auth_seq, status, payload);
    assert(f.subrange(4, 10) =~= bssid);
    assert(f.subrange(10, 16) =~= sta);
    assert(f.subrange(16, 22) =~= bssid);
}

/// The type and subtype bits of a Frame Control field are those of its first
/// octet.
proof fn lemma_frame_type(lo: u8, hi: u8)
    ensures
        bytes::le16(lo, hi) & 0x00fc == (lo & 0xfc) as u16,
{
    assert(((lo as u16) + 256 * (hi as u16)) as u16 & 0x00fc == (lo & 0xfc) as u16)
        by (bit_vector);
}

/// A frame of 30 octets or more is taken for an SAE frame exactly where its
/// first octet has the type of an Authentication frame and the algorithm is 3.
pub proof fn law_sae_frame_recognized(f: Seq<u8>)
    ensures
        auth::is_sae_auth_frame(f) <==> f.len() >= 30 && f[0] & 0xfc == 0xb0 && f[24] == 3 && f[25]
            == 0,
{
    if f.len() >= 30 {
        lemma_frame_type(f[0], f[1]);
    }
}

/// An Association Request: Frame Control 00 00, no duration, the capability
/// field 11 00 (ESS and Privacy) at octet 24 and the listen interval 10.
pub proof fn law_assoc_request_on_the_wire(
    sta: Seq<u8>,
    bssid: Seq<u8>,
    rsne: Seq<u8>,
    rsnxe: Option<Seq<u8>>,
)
    requires
        sta.len() == 6,
        bssid.len() == 6,
    ensures
        ({
            let f = assoc::assoc_req_frame(sta, bssid, rsne, rsnxe);
            &&& f.subrange(0, 4) == seq![0u8, 0, 0, 0]
            &&& f.subrange(22, 28) == seq![0u8, 0, 0x11, 0, 10, 0]
        }),
{
    let f = assoc::assoc_req_frame(sta, bssid, rsne, rsnxe);
    assert(f.subrange(0, 4) =~= seq![0u8, 0, 0, 0]);
    assert(f.subrange(22, 28) =~= seq![0u8, 0, 0x11, 0, 10, 0]);
}

/// A frame of 28 octets or more is taken for an Association Response exactly
/// where its first octet has that type.
pub proof fn law_assoc_response_recognized(f: Seq<u8>)
    ensures
        assoc::is_assoc_resp_frame(f) <==> f.len() >= 28 && f[0] & 0xfc == 0x10,
{
    if f.len() >= 28 {
        lemma_frame_type(f[0], f[1]);
    }
}

// ---- EAPOL ----

/// An EAP packet is framed by version 2, type 0 and its length, most
/// significant octet first; a key frame has type 3 and descriptor type 2, so
/// none is taken for the other.
pub proof fn law_eapol_kinds(eap: Seq<u8>, pdu: Seq<u8>)
    requires
        eap.len() < 0x1_0000,
    ensures
        eapol::eap_frame(eap) == seq![
            2u8,
            0,
            (eap.len() / 256) as u8,
            (eap.len() % 256) as u8,
        ] + eap,
        eapol::is_key_pdu(pdu) ==> pdu.len() >= 99 && pdu[1] == 3 && pdu[4] == 2,
        pdu.len() >= 99 && pdu[1] == 3 && pdu[4] == 2 ==> eapol::is_key_pdu(pdu),
        !(eapol::is_key_pdu(pdu) && eapol::is_eap_frame(pdu)),
{
    assert(eapol::eap_frame(eap) =~= seq![
        2u8,
        0,
        (eap.len() / 256) as u8,
        (eap.len() % 256) as u8,
    ] + eap);
}

/// The fields of a parsed key frame, each from its place.
pub proof fn law_key_frame_fields(f: EapolKeyFrame, pdu: Seq<u8>)
    requires
        eapol::is_key_pdu(pdu),
        f.decodes(pdu),
    ensures
        f.key_info == 256 * pdu[5] + pdu[6],
        f.key_len == 256 * pdu[7] + pdu[8],
        f.replay_counter == bytes::be_nat(pdu.subrange(9, 17)),
        f.key_nonce@ == pdu.subrange(17, 49),
        f.key_iv@ == pdu.subrange(49, 65),
        f.key_rsc@ == pdu.subrange(65, 73),
        f.key_id@ == pdu.subrange(73, 81),
        f.key_mic@ == pdu.subrange(81, 97),
        99 + 256 * pdu[97] + pdu[98] <= pdu.len() ==> f.key_data@ == pdu.subrange(
            99,
            99 + 256 * pdu[97] + pdu[98],
        ),
        99 + 256 * pdu[97] + pdu[98] > pdu.len() ==> f.key_data@.len() == 0,
{
}

// ---- Channels ----

/// Channels of one class are 5 MHz apart for each number between them, but for
/// channel 14. Channel 1 is at 2412 MHz in the classes 81 to 87 and at 5955 MHz
/// in the classes 131 to 155, channel 36 at 5180 MHz in the classes 115 to 130,
/// and channel 14, of class 82 alone, at 2484 MHz.
pub proof fn law_channel_grid(class: u8, a: u8, b: u8)
    ensures
        band::channel_freq(class, a) is Some && band::channel_freq(class, b) is Some && (a != 14
            && b != 14 || class > 87) ==> band::channel_freq(class, a)->0 - band::channel_freq(
            class,
            b,
        )->0 == 5 * (a - b),
        81 <= class <= 87 ==> band::channel_freq(class, 1) == Some(2412u32),
        115 <= class <= 130 ==> band::channel_freq(class, 36) == Some(5180u32),
        131 <= class <= 155 ==> band::channel_freq(class, 1) == Some(5955u32),
        class <= 130 && a == 14 ==> band::channel_freq(class, a) == if class == 82 {
            Some(2484u32)
        } else {
            None
        },
{
}

/// Which channels a class has: 1 to 13 in the 2.4 GHz classes, 32 to 196 in the
/// 5 GHz classes, the odd ones up to 233 in the 6 GHz classes, and none in any
/// other class.
pub proof fn law_channels_of_class(class: u8, channel: u8)
    requires
        channel != 14,
    ensures
        band::channel_freq(class, channel) is Some <==> {
            ||| 81 <= class <= 87 && 1 <= channel <= 13
            ||| 115 <= class <= 130 && 32 <= channel <= 196
            ||| 131 <= class <= 155 && channel <= 233 && channel % 2 == 1
        },
{
}

/// The OCI of a channel's frequency names that channel, in the classes of
/// 20 MHz channels: 81, and 115, 116, 117 and 118 by the part of the band.
pub proof fn law_oci_names_the_channel(class: u8, channel: u8)
    requires
        band::channel_freq(class, channel) is Some,
        class == 81 || 115 <= class <= 118,
        ocv::oci_of_freq(band::channel_freq(class, channel)->0) is Some,
    ensures
        ({
            let oci = ocv::oci_of_freq(band::channel_freq(class, channel)->0)->0;
            &&& oci.len() == 3
            &&& oci[1] == channel
            &&& oci[2] == 0
            &&& class == 81 ==> oci[0] == 81
            &&& class != 81 ==> oci[0] == (if channel <= 48 {
                115u8
            } else if channel <= 64 {
                116u8
            } else if channel <= 144 {
                117u8
            } else {
                118u8
            })
        }),
{
}

/// Every channel of 2.4 GHz but 14 has an OCI, and so have the 5 GHz channels
/// from 36 to 48, 52 to 64, 100 to 144 and 149 to 177.
pub proof fn law_channels_with_an_oci(channel: u8)
    ensures
        1 <= channel <= 13 ==> ocv::oci_of_freq((2407 + 5 * channel) as u32) is Some,
        ocv::oci_of_freq(2484) is None,
        ocv::oci_of_freq((5000 + 5 * channel) as u32) is Some <==> (36 <= channel <= 48 || 52
            <= channel <= 64 || 100 <= channel <= 144 || 149 <= channel <= 177),
{
}

/// The OCI KDE is a vendor element of 7 octets: 00 0F AC 0D and the OCI.
pub proof fn law_oci_kde_octets(oci: Seq<u8>, e: tlv::Element)
    requires
        oci.len() == 3,
    ensures
        ocv::oci_kde(oci) == seq![0xddu8, 7, 0, 0x0f, 0xac, 0x0d, oci[0], oci[1], oci[2]],
        ocv::is_oci_kde(e) <==> e.id == 0xdd && e.body.len() == 7 && e.body[0] == 0 && e.body[1]
            == 0x0f && e.body[2] == 0xac && e.body[3] == 0x0d,
{
    assert(ocv::oci_kde(oci) =~= seq![0xddu8, 7, 0, 0x0f, 0xac, 0x0d, oci[0], oci[1], oci[2]]);
    if e.body.len() == 7 {
        let head = e.body.subrange(0, 4);
        assert(head[0] == e.body[0] && head[1] == e.body[1]);
        assert(head[2] == e.body[2] && head[3] == e.body[3]);
        if e.body[0] == 0 && e.body[1] == 0x0f && e.body[2] == 0xac && e.body[3] == 0x0d {
            assert(head =~= seq![0x00u8, 0x0f, 0xac, 13]);
        }
    }
}

// ---- Neighbor reports and transitions ----

/// The body of a Neighbor Report element as an access point writes it: the
/// BSSID, its information (least significant octet first), the operating
/// class, the channel and the PHY type, then whatever follows.
pub open spec fn report_body(
    bssid: Seq<u8>,
    info: u32,
    class: u8,
    channel: u8,
    phy: u8,
    more: Seq<u8>,
) -> Seq<u8> {
    bssid + seq![
        (info % 256) as u8,
        (info / 256 % 256) as u8,
        (info / 65536 % 256) as u8,
        (info / 16777216) as u8,
        class,
        channel,
        phy,
    ] + more
}

/// Four octets, the least significant first, make up the number they came
/// from.
proof fn lemma_four_octets(x: u32)
    ensures
        bytes::le32(
            (x % 256) as u8,
            (x / 256 % 256) as u8,
            (x / 65536 % 256) as u8,
            (x / 16777216) as u8,
        ) == x,
{
    let (a, b, c) = (x as int / 256, x as int / 65536, x as int / 16777216);
    assert(a / 256 == b) by (nonlinear_arith)
        requires
            a == x as int / 256,
            b == x as int / 65536,
    ;
    assert(b / 256 == c) by (nonlinear_arith)
        requires
            b == x as int / 65536,
            c == x as int / 16777216,
    ;
}

/// A neighbor report is read as it was written: as a neighbor, and as a
/// candidate whose preference is the octet behind the fixed fields.
#[verifier::spinoff_prover]
#[verifier::rlimit(40)]
pub proof fn law_neighbor_report_roundtrip(
    bssid: Seq<u8>,
    info: u32,
    class: u8,
    channel: u8,
    phy: u8,
    more: Seq<u8>,
    list: Seq<tlv::Element>,
)
    requires
        bssid.len() == 6,
    ensures
        ({
            let body = report_body(bssid, info, class, channel, phy, more);
            let n = rrm::Neighbor {
                bssid,
                bssid_info: info,
                operating_class: class,
                channel,
                phy_type: phy,
            };
            let e = tlv::Element { id: 52, body };
            &&& rrm::neighbors(list.push(e)) == rrm::neighbors(list).push(n)
            &&& wnm::candidates(list.push(e)).len() == wnm::candidates(list).len() + 1
            &&& wnm::candidates(list.push(e)).drop_last() == wnm::candidates(list)
            &&& wnm::candidates(list.push(e)).last().neighbor == n
            &&& wnm::candidates(list.push(e)).last().preference == if more.len() > 0 {
                Some(more[0])
            } else {
                None
            }
        }),
{
    let body = report_body(bssid, info, class, channel, phy, more);
    let e = tlv::Element { id: 52, body };
    assert(body.len() == 13 + more.len());
    assert(body.subrange(0, 6) =~= bssid);
    assert(body[6] == (info % 256) as u8 && body[7] == (info / 256 % 256) as u8);
    assert(body[8] == (info / 65536 % 256) as u8 && body[9] == (info / 16777216) as u8);
    assert(body[10] == class && body[11] == channel && body[12] == phy);
    lemma_four_octets(info);
    if more.len() > 0 {
        assert(body[13] == more[0]);
    }
    assert(list.push(e).drop_last() =~= list);
    let c = wnm::candidate(body);
    assert(wnm::candidates(list.push(e)) == wnm::candidates(list).push(c));
    assert(wnm::candidates(list).push(c).drop_last() =~= wnm::candidates(list));
}

/// An element that is no whole neighbor report names no neighbor and no
/// candidate.
pub proof fn law_other_elements_name_no_neighbor(list: Seq<tlv::Element>, e: tlv::Element)
    requires
        e.id != 52 || e.body.len() < 13,
    ensures
        rrm::neighbors(list.push(e)) == rrm::neighbors(list),
        wnm::candidates(list.push(e)) == wnm::candidates(list),
{
    assert(list.push(e).drop_last() =~= list);
}

/// A transition request as an access point writes it up to its candidates: the
/// token, the mode, the timer and the validity, then twelve octets of BSS
/// termination duration where bit 3 of the mode says so, then a URL behind its
/// length where bit 4 says so.
pub open spec fn request_head(
    token: u8,
    mode: u8,
    timer: u16,
    validity: u8,
    termination: Seq<u8>,
    url: Seq<u8>,
) -> Seq<u8> {
    seq![token, mode, (timer % 256) as u8, (timer / 256) as u8, validity] + (if mode & 0x08 != 0 {
        termination
    } else {
        Seq::empty()
    }) + (if mode & 0x10 != 0 {
        seq![url.len() as u8] + url
    } else {
        Seq::empty()
    })
}

/// The candidates of a transition request are the elements behind its head.
pub proof fn law_candidates_follow_the_head(
    token: u8,
    mode: u8,
    timer: u16,
    validity: u8,
    termination: Seq<u8>,
    url: Seq<u8>,
    list: Seq<u8>,
)
    requires
        termination.len() == 12,
        url.len() < 256,
    ensures
        ({
            let head = request_head(token, mode, timer, validity, termination, url);
            let body = head + list;
            &&& wnm::candidate_list_start(body) == Some(head.len() as int)
            &&& tlv::elements_from(body, head.len() as int) == tlv::elements_from(list, 0)
            &&& bytes::le16(body[2], body[3]) == timer
            &&& body[4] == validity
        }),
{
    let head = request_head(token, mode, timer, validity, termination, url);
    let body = head + list;
    assert(body[1] == mode);
    assert(body[2] == (timer % 256) as u8 && body[3] == (timer / 256) as u8);
    if mode & 0x10 != 0 {
        let at: int = if mode & 0x08 != 0 {
            17
        } else {
            5
        };
        assert(body[at] == url.len() as u8);
    }
    lemma_elements_shift(head, list, 0);
}

// ---- Fast transition elements ----

/// The Fast BSS Transition element of a request to authenticate: identifier 55,
/// no MIC, our nonce at octet 52 and the R0 key holder as subelement 3.
pub proof fn law_ftie_auth_on_the_wire(snonce: Seq<u8>, r0kh_id: Seq<u8>)
    requires
        snonce.len() == 32,
        84 + r0kh_id.len() < 256,
    ensures
        ({
            let e = elements::ftie_auth_octets(snonce, r0kh_id);
            &&& e[0] == 55
            &&& e[1] == e.len() - 2
            &&& forall|i: int| 2 <= i < 52 ==> e[i] == 0
            &&& e.subrange(52, 84) == snonce
            &&& e.subrange(84, e.len() as int) == seq![3u8, r0kh_id.len() as u8] + r0kh_id
        }),
{
    let e = elements::ftie_auth_octets(snonce, r0kh_id);
    assert(e.subrange(52, 84) =~= snonce);
    assert(e.subrange(84, e.len() as int) =~= seq![3u8, r0kh_id.len() as u8] + r0kh_id);
}

/// The Fast BSS Transition element of a reassociation request: identifier 55,
/// the count of elements that the MIC covers (4 with an RSNXE, 3 without), the
/// MIC at octet 4, then the nonce of the AP, ours, the R1 key holder as
/// subelement 1 and the R0 key holder as subelement 3. The MIC is the AES-CMAC
/// over our address, the AP's, the transaction number 5 and the elements: the
/// RSNE, the mobility domain, this element with zeros for the MIC, and the
/// RSNXE.
#[verifier::spinoff_prover]
#[verifier::rlimit(40)]
pub proof fn law_ftie_reassoc_on_the_wire(
    kck: Seq<u8>,
    sta_addr: Seq<u8>,
    ap_addr: Seq<u8>,
    anonce: Seq<u8>,
    snonce: Seq<u8>,
    r0kh_id: Seq<u8>,
    r1kh_id: Seq<u8>,
    rsne: Seq<u8>,
    mdie: Seq<u8>,
    rsnxe: Option<Seq<u8>>,
    r: Result<Vec<u8>, WifiError>,
)
    requires
        anonce.len() == 32,
        snonce.len() == 32,
        r1kh_id.len() == 6,
        92 + r0kh_id.len() < 256,
        elements::reassoc_ftie_built(
            kck,
            sta_addr,
            ap_addr,
            anonce,
            snonce,
            r0kh_id,
            r1kh_id,
            rsne,
            mdie,
            rsnxe,
            r,
        ),
    ensures
        ({
            let e = r->Ok_0@;
            let zeroed = Seq::new(
                e.len(),
                |i: int|
                    if 4 <= i < 20 {
                        0u8
                    } else {
                        e[i]
                    },
            );
            let covered = sta_addr + ap_addr + seq![5u8] + rsne + mdie + zeroed;
            &&& e[0] == 55
            &&& e[1] == e.len() - 2
            &&& e[2] == (if rsnxe is Some {
                1u8
            } else {
                0u8
            })
            &&& e[3] == (if rsnxe is Some {
                4u8
            } else {
                3u8
            })
            &&& e.subrange(4, 20) == primitives::aes_128_cmac(
                kck,
                match rsnxe {
                    Some(x) => covered + x,
                    None => covered,
                },
            )
            &&& e.subrange(20, 52) == anonce
            &&& e.subrange(52, 84) == snonce
            &&& e.subrange(84, 92) == seq![1u8, 6] + r1kh_id
            &&& e.subrange(92, e.len() as int) == seq![3u8, r0kh_id.len() as u8] + r0kh_id
        }),
{
    let e = r->Ok_0@;
    let zero = bytes::zeros(16);
    let plain = elements::ftie_reassoc_octets(
        rsnxe is Some,
        zero,
        anonce,
        snonce,
        r0kh_id,
        r1kh_id,
    );
    let mic = elements::reassoc_mic(kck, sta_addr, ap_addr, rsne, mdie, plain, rsnxe);
    let zeroed = Seq::new(
        e.len(),
        |i: int|
            if 4 <= i < 20 {
                0u8
            } else {
                e[i]
            },
    );
    assert(mic.len() == 16);
    assert(e.subrange(4, 20) =~= mic);
    assert(zeroed =~= plain);
    let covered = sta_addr + ap_addr + seq![5u8] + rsne + mdie + zeroed;
    match rsnxe {
        Some(x) => {
            assert(ft::ft_mic_data(
                sta_addr,
                ap_addr,
                5,
                elements::reassoc_mic_elements(rsne, mdie, plain, rsnxe),
            ) =~= covered + x);
        },
        None => {
            assert(ft::ft_mic_data(
                sta_addr,
                ap_addr,
                5,
                elements::reassoc_mic_elements(rsne, mdie, plain, rsnxe),
            ) =~= covered);
        },
    }
    assert(e.subrange(20, 52) =~= anonce);
    assert(e.subrange(52, 84) =~= snonce);
    assert(e.subrange(84, 92) =~= seq![1u8, 6] + r1kh_id);
    assert(e.subrange(92, e.len() as int) =~= seq![3u8, r0kh_id.len() as u8] + r0kh_id);
}

/// The subelements of a Fast BSS Transition element, by number: 1 is the R1 key
/// holder (six octets), 2 the group key, 3 the R0 key holder, 4 the management
/// group key and 6 the beacon group key. Each replaces what an earlier one of
/// its number said and nothing else.
pub proof fn law_ft_subelements(list: Seq<tlv::Element>, e: tlv::Element)
    ensures
        ({
            let before = elements::ft_fields(list);
            let after = elements::ft_fields(list.push(e));
            let b = e.body;
            &&& after.r1kh_id == if e.id == 1 && b.len() == 6 {
                Some(b)
            } else {
                before.r1kh_id
            }
            &&& after.r0kh_id == if e.id == 3 {
                Some(b)
            } else {
                before.r0kh_id
            }
            &&& e.id != 2 ==> after.gtk == before.gtk
            &&& e.id != 4 ==> after.igtk == before.igtk
            &&& e.id != 6 ==> after.bigtk == before.bigtk
            &&& e.id == 2 ==> (after.gtk is Some <==> b.len() >= 11)
            &&& e.id == 4 ==> (after.igtk is Some <==> b.len() >= 9)
            &&& e.id == 6 ==> (after.bigtk is Some <==> b.len() >= 9)
            &&& e.id == 2 && b.len() >= 11 ==> {
                &&& after.gtk->0.key_index == b[0] & 3
                &&& after.gtk->0.rsc == b.subrange(3, 11)
                &&& after.gtk->0.wrapped_key == b.subrange(11, b.len() as int)
            }
            &&& e.id == 4 && b.len() >= 9 ==> {
                &&& after.igtk->0.key_index == b[0]
                &&& after.igtk->0.rsc == b.subrange(2, 8)
                &&& after.igtk->0.wrapped_key == b.subrange(9, b.len() as int)
            }
            &&& e.id == 6 && b.len() >= 9 ==> {
                &&& after.bigtk->0.key_index == b[0]
                &&& after.bigtk->0.rsc == b.subrange(2, 8)
                &&& after.bigtk->0.wrapped_key == b.subrange(9, b.len() as int)
            }
        }),
{
    assert(list.push(e).drop_last() =~= list);
}

/// What an access point reads in the element of our reassociation request, and
/// what we read in one of the same form: the nonces, the MIC and the key holders
/// that were written.
pub proof fn law_ftie_is_read_as_written(
    f: elements::FtIe,
    with_rsnxe: bool,
    mic: Seq<u8>,
    anonce: Seq<u8>,
    snonce: Seq<u8>,
    r0kh_id: Seq<u8>,
    r1kh_id: Seq<u8>,
)
    requires
        mic.len() == 16,
        anonce.len() == 32,
        snonce.len() == 32,
        r1kh_id.len() == 6,
        92 + r0kh_id.len() < 256,
        ({
            let e = elements::ftie_reassoc_octets(
                with_rsnxe,
                mic,
                anonce,
                snonce,
                r0kh_id,
                r1kh_id,
            );
            f.decodes(e.subrange(2, e.len() as int))
        }),
    ensures
        f.mic_control@ == if with_rsnxe {
            seq![1u8, 4]
        } else {
            seq![0u8, 3]
        },
        f.mic@ == mic,
        f.anonce@ == anonce,
        f.snonce@ == snonce,
{
    let e = elements::ftie_reassoc_octets(with_rsnxe, mic, anonce, snonce, r0kh_id, r1kh_id);
    let body = e.subrange(2, e.len() as int);
    assert(body.subrange(0, 2) =~= if with_rsnxe {
        seq![1u8, 4]
    } else {
        seq![0u8, 3]
    });
    assert(body.subrange(2, 18) =~= mic);
    assert(body.subrange(18, 50) =~= anonce);
    assert(body.subrange(50, 82) =~= snonce);
}

} // verus!
