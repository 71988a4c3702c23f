//! SAE Authentication frames.

use vstd::prelude::*;

use crate::bytes;

verus! {

/// Type and subtype bits of the Frame Control field.
const FC_TYPE_MASK: u16 = 0x00FC;

/// Frame Control of an Authentication frame.
const FC_AUTH: u16 = 0x00B0;

/// Length of a management frame header.
const MGMT_HDR_LEN: usize = 24;

/// Authentication algorithm number of SAE.
const AUTH_ALG_SAE: u16 = 3;

/// The octets of an SAE Authentication frame sent by `sta` to `bssid`.
pub open spec fn sae_auth_frame(
    sta: Seq<u8>,
    bssid: Seq<u8>,
    auth_seq: u16,
    status: u16,
    payload: Seq<u8>,
) -> Seq<u8> {
    bytes::le16_bytes(0x00B0) + bytes::le16_bytes(0) + bssid + sta + bssid + bytes::le16_bytes(0)
        + bytes::le16_bytes(3) + bytes::le16_bytes(auth_seq) + bytes::le16_bytes(status) + payload
}

/// Whether a frame is an SAE Authentication frame with its fixed fields.
pub open spec fn is_sae_auth_frame(frame: Seq<u8>) -> bool {
    &&& frame.len() >= 30
    &&& bytes::le16(frame[0], frame[1]) & 0x00FC == 0x00B0
    &&& bytes::le16(frame[24], frame[25]) == 3
}

/// Build an SAE Authentication frame (commit or confirm).
/// Returns the full 802.11 management frame (without FCS).
/// Frame body format per 802.11-2020 §9.3.3.1.
pub fn build_sae_auth_frame(
    sta_mac: [u8; 6],
    bssid: [u8; 6],
    auth_seq: u16,
    status_code: u16,
    sae_payload: &[u8],
) -> (frame: Vec<u8>)
    ensures
        frame@ == sae_auth_frame(sta_mac@, bssid@, auth_seq, status_code, sae_payload@),
{
    let mut frame: Vec<u8> = Vec::new();
    bytes::push_le16(&mut frame, FC_AUTH);
    // Duration
    bytes::push_le16(&mut frame, 0);
    // DA, SA, BSSID
    bytes::append(&mut frame, &bssid);
    bytes::append(&mut frame, &sta_mac);
    bytes::append(&mut frame, &bssid);
    // Seq Ctrl
    bytes::push_le16(&mut frame, 0);
    bytes::push_le16(&mut frame, AUTH_ALG_SAE);
    bytes::push_le16(&mut frame, auth_seq);
    bytes::push_le16(&mut frame, status_code);
    bytes::append(&mut frame, sae_payload);
    assert(frame@ =~= sae_auth_frame(sta_mac@, bssid@, auth_seq, status_code, sae_payload@));
    frame
}

/// Parse an SAE Authentication frame from a full 802.11 mgmt frame.
/// Returns (auth_seq, status_code, sae_payload).
pub fn parse_sae_auth_frame(full_frame: &[u8]) -> (r: Option<(u16, u16, Vec<u8>)>)
    ensures
        r is Some <==> is_sae_auth_frame(full_frame@),
        r matches Some((seq, status, payload)) ==> {
            &&& seq == bytes::le16(full_frame@[26], full_frame@[27])
            &&& status == bytes::le16(full_frame@[28], full_frame@[29])
            &&& payload@ == full_frame@.subrange(30, full_frame@.len() as int)
        },
{
    if full_frame.len() < MGMT_HDR_LEN + 6 {
        return None;
    }
    let fc: u16 = bytes::read_le16(full_frame, 0);
    if fc & FC_TYPE_MASK != FC_AUTH {
        return None;
    }
    if bytes::read_le16(full_frame, MGMT_HDR_LEN) != AUTH_ALG_SAE {
        return None;
    }
    let auth_seq: u16 = bytes::read_le16(full_frame, MGMT_HDR_LEN + 2);
    let status_code: u16 = bytes::read_le16(full_frame, MGMT_HDR_LEN + 4);
    let payload = bytes::sub_vec(full_frame, MGMT_HDR_LEN + 6, full_frame.len());
    Some((auth_seq, status_code, payload))
}

/// Parsing a built frame gives back the sequence number, the status and the
/// payload it was built from.
pub proof fn law_sae_auth_frame_roundtrip(
    sta: Seq<u8>,
    bssid: Seq<u8>,
    auth_seq: u16,
    status: u16,
    payload: Seq<u8>,
)
    requires
        sta.len() == 6,
        bssid.len() == 6,
    ensures
        ({
            let frame = sae_auth_frame(sta, bssid, auth_seq, status, payload);
            &&& is_sae_auth_frame(frame)
            &&& bytes::le16(frame[26], frame[27]) == auth_seq
            &&& bytes::le16(frame[28], frame[29]) == status
            &&& frame.subrange(30, frame.len() as int) == payload
        }),
{
    let frame = sae_auth_frame(sta, bssid, auth_seq, status, payload);
    assert(0x00B0u16 & 0x00FCu16 == 0x00B0u16) by (bit_vector);
    bytes::lemma_u16_bytes(0x00B0);
    bytes::lemma_u16_bytes(3);
    bytes::lemma_u16_bytes(auth_seq);
    bytes::lemma_u16_bytes(status);
    assert(frame[0] == bytes::le16_bytes(0x00B0)[0] && frame[1] == bytes::le16_bytes(0x00B0)[1]);
    assert(frame[24] == bytes::le16_bytes(3)[0] && frame[25] == bytes::le16_bytes(3)[1]);
    assert(frame[26] == bytes::le16_bytes(auth_seq)[0] && frame[27] == bytes::le16_bytes(
        auth_seq,
    )[1]);
    assert(frame[28] == bytes::le16_bytes(status)[0] && frame[29] == bytes::le16_bytes(status)[1]);
    assert(frame.subrange(30, frame.len() as int) =~= payload);
}

} // verus!
