//! Association frames. Connections go through `NL80211_CMD_ASSOCIATE`, with
//! which the kernel builds and parses them itself; these are the frames as
//! they stand on the air.

use vstd::prelude::*;

use crate::bytes;

verus! {

/// Type and subtype bits of the Frame Control field.
const FC_TYPE_MASK: u16 = 0x00FC;

/// Frame Control of an Association Request frame.
const FC_ASSOC_REQ: u16 = 0x0000;

/// Frame Control of an Association Response frame.
const FC_ASSOC_RESP: u16 = 0x0010;

/// Capability Information of a request: an infrastructure network (ESS) with
/// Privacy.
const CAPAB_ESS_PRIVACY: u16 = 0x0011;

/// Listen Interval of a request, in beacon intervals.
const LISTEN_INTERVAL: u16 = 10;

/// The octets of an Association Request frame sent by `sta` to `bssid`: the
/// 24-octet management header, Capability Information and Listen Interval,
/// then the elements.
pub open spec fn assoc_req_frame(
    sta: Seq<u8>,
    bssid: Seq<u8>,
    rsne: Seq<u8>,
    rsnxe: Option<Seq<u8>>,
) -> Seq<u8> {
    bytes::le16_bytes(0x0000) + bytes::le16_bytes(0) + bssid + sta + bssid + bytes::le16_bytes(0)
        + bytes::le16_bytes(0x0011) + bytes::le16_bytes(10) + rsne + (match rsnxe {
        Some(x) => x,
        None => Seq::empty(),
    })
}

/// Whether a frame is an Association Response with its Capability Information
/// and status code.
pub open spec fn is_assoc_resp_frame(frame: Seq<u8>) -> bool {
    &&& frame.len() >= 28
    &&& bytes::le16(frame[0], frame[1]) & 0x00FC == 0x0010
}

/// Build an Association Request frame with RSNE.
/// Returns the full 802.11 Association Request management frame.
pub fn build_assoc_req(sta_mac: [u8; 6], bssid: [u8; 6], rsne: &[u8], rsnxe: Option<&[u8]>) -> (r:
    Vec<u8>)
    ensures
        r@ == assoc_req_frame(
            sta_mac@,
            bssid@,
            rsne@,
            match rsnxe {
                Some(x) => Some(x@),
                None => None,
            },
        ),
{
    let mut frame: Vec<u8> = Vec::new();
    bytes::push_le16(&mut frame, FC_ASSOC_REQ);
    // Duration
    bytes::push_le16(&mut frame, 0);
    // DA, SA, BSSID
    bytes::append(&mut frame, &bssid);
    bytes::append(&mut frame, &sta_mac);
    bytes::append(&mut frame, &bssid);
    // Seq Ctrl
    bytes::push_le16(&mut frame, 0);
    bytes::push_le16(&mut frame, CAPAB_ESS_PRIVACY);
    bytes::push_le16(&mut frame, LISTEN_INTERVAL);
    bytes::append(&mut frame, rsne);
    match rsnxe {
        Some(x) => {
            bytes::append(&mut frame, x);
            assert(frame@ =~= assoc_req_frame(sta_mac@, bssid@, rsne@, Some(x@)));
        },
        None => {
            assert(frame@ =~= assoc_req_frame(sta_mac@, bssid@, rsne@, None));
        },
    }
    frame
}

/// Parse an Association Response frame.
/// Returns (capability_info, status_code).
pub fn parse_assoc_resp(frame: &[u8]) -> (r: Option<(u16, u16)>)
    ensures
        r == if is_assoc_resp_frame(frame@) {
            Some((bytes::le16(frame@[24], frame@[25]), bytes::le16(frame@[26], frame@[27])))
        } else {
            None
        },
{
    if frame.len() < 28 {
        return None;
    }
    if bytes::read_le16(frame, 0) & FC_TYPE_MASK != FC_ASSOC_RESP {
        return None;
    }
    Some((bytes::read_le16(frame, 24), bytes::read_le16(frame, 26)))
}

/// A built Association Request starts with a 24-octet header that names the AP
/// as the receiver and the station as the sender, and carries the RSNE and,
/// where there is one, the RSNXE after the fixed fields.
pub proof fn law_assoc_req_layout(
    sta: Seq<u8>,
    bssid: Seq<u8>,
    rsne: Seq<u8>,
    rsnxe: Option<Seq<u8>>,
)
    requires
        sta.len() == 6,
        bssid.len() == 6,
    ensures
        ({
            let frame = assoc_req_frame(sta, bssid, rsne, rsnxe);
            &&& frame.subrange(4, 10) == bssid
            &&& frame.subrange(10, 16) == sta
            &&& frame.subrange(16, 22) == bssid
            &&& frame.subrange(28, 28 + rsne.len() as int) == rsne
            &&& frame.subrange(28 + rsne.len() as int, frame.len() as int) == match rsnxe {
                Some(x) => x,
                None => Seq::empty(),
            }
        }),
{
    let frame = assoc_req_frame(sta, bssid, rsne, rsnxe);
    let rest = match rsnxe {
        Some(x) => x,
        None => Seq::empty(),
    };
    assert(frame.subrange(4, 10) =~= bssid);
    assert(frame.subrange(10, 16) =~= sta);
    assert(frame.subrange(16, 22) =~= bssid);
    assert(frame.subrange(28, 28 + rsne.len() as int) =~= rsne);
    assert(frame.subrange(28 + rsne.len() as int, frame.len() as int) =~= rest);
}

} // verus!
