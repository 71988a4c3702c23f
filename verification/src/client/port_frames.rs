//! The frames of the control port octet by octet: which message a Key
//! Information field tells, how each EAP packet is answered, and which key EAP
//! hands over.

use vstd::prelude::*;
use vstd::string::*;

use crate::bytes;
use crate::client::handshake::{
    control_port_outcome, eap_succeeded, key_message, KeyMessage, PortStep,
};
use crate::client::state::WifiIface;
use crate::eap;
use crate::eap_tls;
use crate::ieee80211::eapol;

use rustls::ClientConnection;

verus! {

/// Which message a Key Information field tells. Request (bit 11) asks for
/// nothing. Without a MIC (bit 8), a message that wants an answer (Ack, bit 7)
/// is Message 1. With a MIC and Secure (bit 9) it is Message 3 where it is
/// Pairwise (bit 3), and a group key message where it is not and wants an
/// answer.
pub proof fn law_key_messages_by_bits(info: u16)
    ensures
        info & 0x0800 != 0 ==> key_message(info) == KeyMessage::Other,
        info & 0x0800 == 0 && info & 0x0100 == 0 ==> key_message(info) == if info & 0x0080 != 0 {
            KeyMessage::Message1
        } else {
            KeyMessage::Other
        },
        info & 0x0800 == 0 && info & 0x0100 != 0 && info & 0x0200 == 0 ==> key_message(info)
            == KeyMessage::Other,
        info & 0x0800 == 0 && info & 0x0100 != 0 && info & 0x0200 != 0 && info & 0x0008 != 0
            ==> key_message(info) == KeyMessage::Message3,
        info & 0x0800 == 0 && info & 0x0100 != 0 && info & 0x0200 != 0 && info & 0x0008 == 0
            ==> key_message(info) == if info & 0x0080 != 0 {
            KeyMessage::GroupMessage1
        } else {
            KeyMessage::Other
        },
{
}

/// What an EAP packet in octets is: the code, the identifier and the length,
/// most significant octet first. Requests (1) and Responses (2) have a type
/// behind that; Success (3) and Failure (4) have none. Anything else is no
/// packet, nor is one that is cut short.
pub proof fn law_eap_packets(pdu: Seq<u8>)
    ensures
        pdu.len() >= 4 ==> ({
            let n = 256 * pdu[2] + pdu[3];
            let whole = 4 <= n <= pdu.len();
            &&& whole && (pdu[0] == 3 || pdu[0] == 4) ==> eap::parsed_packet(pdu) == Some(
                eap::Packet {
                    code: pdu[0],
                    identifier: pdu[1],
                    type_: None,
                    body: pdu.subrange(4, n),
                },
            )
            &&& whole && n > 4 && (pdu[0] == 1 || pdu[0] == 2) ==> eap::parsed_packet(pdu) == Some(
                eap::Packet {
                    code: pdu[0],
                    identifier: pdu[1],
                    type_: Some(pdu[4]),
                    body: pdu.subrange(5, n),
                },
            )
            &&& !whole || pdu[0] == 0 || pdu[0] > 4 || n == 4 && pdu[0] <= 2
                ==> eap::parsed_packet(pdu) is None
        }),
        pdu.len() < 4 ==> eap::parsed_packet(pdu) is None,
{
}

/// The EAPOL frame of a Response: version 2, type 0 and the length, then the
/// code 2, the identifier, the same length, the type and the body.
pub open spec fn response_frame(identifier: u8, kind: u8, body: Seq<u8>) -> Seq<u8> {
    let n = 5 + body.len();
    seq![
        2u8,
        0,
        (n / 256) as u8,
        (n % 256) as u8,
        2,
        identifier,
        (n / 256) as u8,
        (n % 256) as u8,
        kind,
    ] + body
}

/// A framed Response is the frame written out above.
proof fn lemma_response_frame(identifier: u8, kind: u8, body: Seq<u8>)
    requires
        body.len() < 65531,
    ensures
        eapol::eap_frame(eap::response_octets(identifier, kind, body)) == response_frame(
            identifier,
            kind,
            body,
        ),
{
    let r = eap::response_octets(identifier, kind, body);
    assert(r.len() == 5 + body.len());
    assert(eapol::eap_frame(r) =~= response_frame(identifier, kind, body));
}

/// Whether a NAK may offer a type: any but Identity (1) and NAK (3).
pub open spec fn offered(t: u8) -> bool {
    t != 1 && t != 3
}

/// A NAK offers the supported types that remain, in their order.
pub proof fn law_nak_keeps_the_order(supported: Seq<u8>)
    ensures
        eap::nak_types(supported) == supported.filter(|t: u8| offered(t)),
    decreases supported.len(),
{
    reveal(Seq::filter);
    if supported.len() > 0 {
        law_nak_keeps_the_order(supported.drop_last());
    }
}

/// The types that a NAK offers are the supported ones but Identity (1) and NAK
/// (3).
proof fn lemma_nak_offers(supported: Seq<u8>, t: u8)
    ensures
        eap::nak_types(supported).contains(t) <==> supported.contains(t) && t != 1 && t != 3,
        eap::nak_types(supported).len() <= supported.len(),
    decreases supported.len(),
{
    if supported.len() > 0 {
        let front = supported.drop_last();
        let last = supported.last();
        lemma_nak_offers(front, t);
        let offered = eap::nak_types(front);
        if supported.contains(t) && !front.contains(t) {
            let k = choose|k: int| 0 <= k < supported.len() && supported[k] == t;
            assert(k == front.len()) by {
                if k < front.len() {
                    assert(front[k] == t);
                }
            }
        }
        if front.contains(t) {
            let k = choose|k: int| 0 <= k < front.len() && front[k] == t;
            assert(supported[k] == t);
        }
        assert(supported[supported.len() - 1] == last);
        if last != 1 && last != 3 {
            let all = offered.push(last);
            assert(all[offered.len() as int] == last);
            if offered.contains(t) {
                let k = choose|k: int| 0 <= k < offered.len() && offered[k] == t;
                assert(all[k] == t);
            }
            if all.contains(t) && t != last {
                let k = choose|k: int| 0 <= k < all.len() && all[k] == t;
                assert(offered[k] == t);
            }
        }
    }
}

/// How the control port answers an EAP Request while an 802.1X peer is there:
/// one for the identity (type 1) with the configured identity, a notification
/// (type 2) with an empty one, a NAK (type 3) not at all, and one of a type that
/// no method is there for with a NAK that offers the supported types but 1 and
/// 3. Each answer repeats the identifier of the Request and changes nothing.
#[verifier::spinoff_prover]
#[verifier::rlimit(40)]
pub proof fn law_requests_on_the_wire(
    before: WifiIface,
    after: WifiIface,
    frame: Seq<u8>,
    r: PortStep,
)
    requires
        control_port_outcome(before, after, frame, r),
        before.auth.eap_peer is Some,
        frame.len() >= 9,
        frame[1] == 0,
        256 * frame[2] + frame[3] == frame.len() - 4,
        frame[4] == 1,
        256 * frame[6] + frame[7] == frame.len() - 4,
        vstd::utf8::encode_utf8(before.auth.eap_peer->0.identity@).len() < 65531,
        before.auth.eap_peer->0.supported_types@.len() < 65531,
    ensures
        ({
            let peer = before.auth.eap_peer->0;
            let identity = vstd::utf8::encode_utf8(peer.identity@);
            let kind = frame[8];
            &&& kind == 1 ==> {
                &&& r matches PortStep::SendFrame(f)
                &&& f@ == response_frame(frame[5], 1, identity)
                &&& after == before
            }
            &&& kind == 2 ==> {
                &&& r matches PortStep::SendFrame(f)
                &&& f@ == response_frame(frame[5], 2, Seq::empty())
                &&& after == before
            }
            &&& kind == 3 ==> r is Nothing && after == before
            &&& kind > 3 && peer.method_kind() != Some(kind) ==> {
                &&& r matches PortStep::SendFrame(f)
                &&& f@.len() >= 9
                &&& f@.subrange(0, 9) == response_frame(
                    frame[5],
                    3,
                    f@.subrange(9, f@.len() as int),
                ).subrange(0, 9)
                &&& forall|t: u8| #[trigger]
                    f@.subrange(9, f@.len() as int).contains(t) <==> peer.supported_types@.contains(
                        t,
                    ) && t != 1 && t != 3
                &&& after == before
            }
        }),
{
    let peer = before.auth.eap_peer->0;
    let identity = vstd::utf8::encode_utf8(peer.identity@);
    let pdu = eapol::eap_of(frame);
    assert(pdu =~= frame.subrange(4, frame.len() as int));
    law_eap_packets(pdu);
    assert(pdu[0] == frame[4] && pdu[1] == frame[5] && pdu[4] == frame[8]);
    assert(pdu[2] == frame[6] && pdu[3] == frame[7]);
    let kind = frame[8];
    lemma_response_frame(frame[5], 1, identity);
    lemma_response_frame(frame[5], 2, Seq::empty());
    let offer = eap::nak_types(peer.supported_types@);
    lemma_nak_offers(peer.supported_types@, 0);
    lemma_response_frame(frame[5], 3, offer);
    if kind > 3 && peer.method_kind() != Some(kind) {
        let f = response_frame(frame[5], 3, offer);
        assert(f.subrange(9, f.len() as int) =~= offer);
        assert forall|t: u8| #[trigger]
            offer.contains(t) <==> peer.supported_types@.contains(t) && t != 1 && t != 3 by {
            lemma_nak_offers(peer.supported_types@, t);
        }
    }
}

/// EAP-Success (code 3) hands over the first 32 octets of the MSK as the PMK;
/// nothing is sent.
pub proof fn law_success_hands_over_the_pmk(
    before: WifiIface,
    after: WifiIface,
    frame: Seq<u8>,
    r: PortStep,
)
    requires
        control_port_outcome(before, after, frame, r),
        before.auth.eap_peer is Some,
        frame.len() >= 8,
        frame[1] == 0,
        256 * frame[2] + frame[3] == frame.len() - 4,
        frame[4] == 3 || frame[4] == 4,
        256 * frame[6] + frame[7] == frame.len() - 4,
    ensures
        r is Nothing,
        frame[4] == 4 ==> after.last_error is Some,
        frame[4] == 3 ==> match before.auth.eap_peer->0.msk_known() {
            Some(msk) => {
                &&& after.auth.eap_pmk matches Some(pmk)
                &&& forall|i: int| 0 <= i < 32 ==> pmk@[i] == msk@[i]
                &&& after.state == before.state
            },
            None => after.last_error is Some,
        },
{
    let pdu = eapol::eap_of(frame);
    assert(pdu =~= frame.subrange(4, frame.len() as int));
    law_eap_packets(pdu);
    assert(pdu[0] == frame[4] && pdu[1] == frame[5]);
    assert(pdu[2] == frame[6] && pdu[3] == frame[7]);
    match before.auth.eap_peer->0.msk_known() {
        Some(msk) => {
            assert(forall|i: int|
                0 <= i < 32 ==> msk@.subrange(0, 32)[i] == msk@[i]);
        },
        None => {},
    }
}

/// The octets of `EXPORTER_EAP_TLS_Key_Material`.
pub open spec fn octets_exporter() -> Seq<u8> {
    seq![
        0x45u8, 0x58, 0x50, 0x4f, 0x52, 0x54, 0x45, 0x52, 0x5f, 0x45, 0x41, 0x50, 0x5f,
        0x54, 0x4c, 0x53, 0x5f, 0x4b, 0x65, 0x79, 0x5f, 0x4d, 0x61, 0x74, 0x65, 0x72, 0x69,
        0x61, 0x6c,
    ]
}

/// The label is made of its ASCII octets.
proof fn lemma_octets_exporter()
    ensures
        "EXPORTER_EAP_TLS_Key_Material".spec_bytes() == octets_exporter(),
{
    reveal_strlit("EXPORTER_EAP_TLS_Key_Material");
    is_ascii_spec_bytes("EXPORTER_EAP_TLS_Key_Material");
    assert("EXPORTER_EAP_TLS_Key_Material"@.len() == 29);
    assert("EXPORTER_EAP_TLS_Key_Material".spec_bytes() =~= octets_exporter());
}

/// The MSK of a completed TLS handshake is the first 64 octets of the keying
/// material that the connection exports under the label
/// `EXPORTER_EAP_TLS_Key_Material` with the EAP type, 13, as the context.
pub proof fn law_msk_is_exported(method: eap_tls::EapTlsMethod, conn: ClientConnection)
    requires
        method.has_msk_of(conn),
        !eap_tls::handshaking(conn),
    ensures
        method.msk is Some,
        eap_tls::keying_material(conn, octets_exporter(), seq![13u8]) matches Ok(km)
            && method.msk->0@ == km.subrange(0, 64),
{
    lemma_octets_exporter();
}

/// A TLS message is a flags octet with the length bit (80) set, the length in
/// four octets, most significant first, and the data; without data it is empty.
/// One is read by the same bits, and bit 20 (hexadecimal) starts the exchange.
pub proof fn law_tls_messages(data: Seq<u8>, body: Seq<u8>)
    requires
        data.len() < 0x1_0000_0000,
    ensures
        data.len() == 0 ==> eap_tls::tls_message(data).len() == 0,
        data.len() > 0 ==> ({
            let m = eap_tls::tls_message(data);
            &&& m.len() == 5 + data.len()
            &&& m[0] == 0x80
            &&& 0x100_0000 * m[1] + 0x1_0000 * m[2] + 0x100 * m[3] + m[4] == data.len()
            &&& m.subrange(5, m.len() as int) == data
        }),
        body.len() > 0 && body[0] & 0x80 == 0 ==> eap_tls::tls_message_parts(body) == Ok::<
            (u8, Seq<u8>),
            Seq<char>,
        >((body[0], body.subrange(1, body.len() as int))),
        body.len() >= 5 && body[0] & 0x80 != 0 ==> eap_tls::tls_message_parts(body) == Ok::<
            (u8, Seq<u8>),
            Seq<char>,
        >((body[0], body.subrange(5, body.len() as int))),
        0 < body.len() < 5 && body[0] & 0x80 != 0 ==> eap_tls::tls_message_parts(body) is Err,
{
    if data.len() > 0 {
        let m = eap_tls::tls_message(data);
        let n = data.len() as u32;
        let b = bytes::be32_bytes(n);
        assert(m[1] == b[0] && m[2] == b[1] && m[3] == b[2] && m[4] == b[3]);
        assert(m.subrange(5, m.len() as int) =~= data);
        lemma_four_octets(n);
    }
}

/// Four octets, the most significant first, make up the number they came from.
proof fn lemma_four_octets(x: u32)
    ensures
        ({
            let b = bytes::be32_bytes(x);
            0x100_0000 * b[0] + 0x1_0000 * b[1] + 0x100 * b[2] + b[3] == x
        }),
{
    let (a, b, c) = (x as int / 256, x as int / 65536, x as int / 16777216);
    assert(a / 256 == b) by (nonlinear_arith)
        requires
            a == x as int / 256,
            b == x as int / 65536,
    ;
    assert(b / 256 == c) by (nonlinear_arith)
        requires
            b == x as int / 65536,
            c == x as int / 16777216,
    ;
}

/// Data before the exchange was started (bit 20, hexadecimal, of the flags) is
/// refused, and changes nothing.
pub proof fn law_tls_starts_first(
    before: eap_tls::EapTlsMethod,
    body: Seq<u8>,
)
    requires
        before.conn is None,
        body.len() >= 5,
    ensures
        before.request_error(body) is Some <==> body[0] & 0x20 == 0,
{
}

} // verus!
