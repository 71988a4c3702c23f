//! BSS Transition Management (IEEE 802.11v / 802.11-2020 §11.11.9).
//!
//! The AP asks the STA to move to another BSS with a BTM Request; the STA
//! answers with a BTM Response and, when accepting, roams to the chosen
//! candidate.

use vstd::prelude::*;

use crate::bytes;
use crate::ieee80211::rrm;
use crate::ieee80211::tlv;
use crate::ETH_ALEN;

verus! {

/// WNM action category (802.11-2020 Table 9-46).
pub const WNM_ACTION_CATEGORY: u8 = 10;

/// BSS Transition Management Request (802.11-2020 Table 9-459; note: action
/// 6 is the BTM *Query*).
pub const BTM_REQUEST_ACTION: u8 = 7;

/// BSS Transition Management Response (802.11-2020 Table 9-459).
pub const BTM_RESPONSE_ACTION: u8 = 8;

// Request Mode bits (802.11-2020 Table 9-459).
pub const REQ_MODE_PREF_CAND_LIST: u8 = 0x01;

pub const REQ_MODE_BSS_TERMINATION: u8 = 0x08;

pub const REQ_MODE_ESS_DISASSOC_IMMINENT: u8 = 0x10;

/// BTM Response status codes (802.11-2020 Table 9-461).
pub const BTM_STATUS_ACCEPT: u8 = 0;

pub const BTM_STATUS_REJECT_UNSPECIFIED: u8 = 1;

/// One BSS Transition Management candidate: the fields of its Neighbor
/// Report element body.
#[derive(Debug, Clone, PartialEq, Eq)]
#[non_exhaustive]
pub struct BtmCandidate {
    pub bssid: [u8; ETH_ALEN],
    pub bssid_info: u32,
    pub operating_class: u8,
    pub channel: u8,
    pub phy_type: u8,
    /// Preference octet (present when the request carries a preferred
    /// candidate list; higher = preferred).
    pub preference: Option<u8>,
}

/// A parsed BSS Transition Management Request.
#[derive(Debug, Clone, PartialEq, Eq)]
#[non_exhaustive]
pub struct BtmRequest {
    pub dialog_token: u8,
    pub preferred_candidates: bool,
    pub disassoc_timer: u16,
    pub validity_interval: u8,
    pub candidates: Vec<BtmCandidate>,
}

/// The fields of one candidate.
pub struct Candidate {
    pub neighbor: rrm::Neighbor,
    pub preference: Option<u8>,
}

impl View for BtmCandidate {
    type V = Candidate;

    open spec fn view(&self) -> Candidate {
        Candidate {
            neighbor: rrm::Neighbor {
                bssid: self.bssid@,
                bssid_info: self.bssid_info,
                operating_class: self.operating_class,
                channel: self.channel,
                phy_type: self.phy_type,
            },
            preference: self.preference,
        }
    }
}

/// The candidate in a Neighbor Report element: its mandatory fields and the
/// preference octet that follows them, when there is one.
pub open spec fn candidate(body: Seq<u8>) -> Candidate {
    Candidate {
        neighbor: rrm::neighbor(body),
        preference: if body.len() > 13 {
            Some(body[13])
        } else {
            None
        },
    }
}

/// The candidates among a list of elements, in order.
pub open spec fn candidates(list: Seq<tlv::Element>) -> Seq<Candidate>
    decreases list.len(),
{
    if list.len() == 0 {
        Seq::empty()
    } else if rrm::is_neighbor(list.last()) {
        candidates(list.drop_last()).push(candidate(list.last().body))
    } else {
        candidates(list.drop_last())
    }
}

/// The views of a list of candidates.
pub open spec fn candidate_views(list: Seq<BtmCandidate>) -> Seq<Candidate> {
    list.map_values(|c: BtmCandidate| c@)
}

/// Where the optional BSS Termination Duration ends.
pub open spec fn after_termination(body: Seq<u8>) -> int {
    if body[1] & REQ_MODE_BSS_TERMINATION != 0 {
        17
    } else {
        5
    }
}

/// Where the candidate list starts; none where the request is cut short
/// before it.
pub open spec fn candidate_list_start(body: Seq<u8>) -> Option<int> {
    if body.len() < 5 {
        None
    } else if body[1] & REQ_MODE_ESS_DISASSOC_IMMINENT == 0 {
        Some(after_termination(body))
    } else if body.len() <= after_termination(body) {
        None
    } else {
        Some(after_termination(body) + 1 + body[after_termination(body)])
    }
}

/// Parse a BTM Request from the action frame body (after the category and
/// action octets). Layout: Dialog Token (1) || Request Mode (1) ||
/// Disassociation Timer (2 LE) || Validity Interval (1) || optional BSS
/// Termination Duration (12) || optional Session Information URL
/// (length-prefixed) || candidate list (Neighbor Report elements).
pub fn parse_btm_request(body: &[u8]) -> (r: Option<BtmRequest>)
    ensures
        r is Some <==> candidate_list_start(body@) is Some,
        r matches Some(req) ==> {
            &&& req.dialog_token == body@[0]
            &&& req.preferred_candidates == (body@[1] & REQ_MODE_PREF_CAND_LIST != 0)
            &&& req.preferred_candidates == (body@[1] & 0x01 != 0)
            &&& req.disassoc_timer == bytes::le16(body@[2], body@[3])
            &&& req.validity_interval == body@[4]
            &&& candidate_views(req.candidates@) == candidates(
                tlv::elements_from(body@, candidate_list_start(body@)->0),
            )
        },
{
    if body.len() < 5 {
        return None;
    }
    let dialog_token: u8 = body[0];
    let req_mode: u8 = body[1];
    let disassoc_timer: u16 = bytes::read_le16(body, 2);
    let validity_interval: u8 = body[4];
    let mut start: usize = 5;
    if req_mode & REQ_MODE_BSS_TERMINATION != 0 {
        // Subelement: ID(1) + length(1) + 10 octets of data.
        start = 17;
    }
    if req_mode & REQ_MODE_ESS_DISASSOC_IMMINENT != 0 {
        if body.len() <= start {
            return None;
        }
        start = start + 1 + body[start] as usize;
    }
    let mut list: Vec<BtmCandidate> = Vec::new();
    let ghost mut done: Seq<tlv::Element> = Seq::empty();
    assert(candidate_views(list@) =~= candidates(done));
    if start <= body.len() {
        let mut pos: usize = start;
        assert(done + tlv::elements_from(body@, start as int) =~= tlv::elements_from(
            body@,
            start as int,
        ));
        loop
            invariant
                start <= pos <= body@.len(),
                candidate_views(list@) == candidates(done),
                tlv::elements_from(body@, start as int) == done + tlv::elements_from(
                    body@,
                    pos as int,
                ),
            ensures
                candidate_views(list@) == candidates(tlv::elements_from(body@, start as int)),
            decreases body@.len() - pos,
        {
            match tlv::next_end(body, pos) {
                None => {
                    assert(done + tlv::elements_from(body@, pos as int) =~= done);
                    break ;
                },
                Some(end) => {
                    let ghost e = tlv::element_at(body@, pos as int);
                    let ghost before = list@;
                    if body[pos] == rrm::IE_ID_NEIGHBOR_REPORT && end - pos - 2 >= 13 {
                        let at: usize = pos + 2;
                        let preference: Option<u8> = if end - at > 13 {
                            Some(body[at + 13])
                        } else {
                            None
                        };
                        let c = BtmCandidate {
                            bssid: bytes::array6(body, at),
                            bssid_info: bytes::read_le32(body, at + 6),
                            operating_class: body[at + 10],
                            channel: body[at + 11],
                            phy_type: body[at + 12],
                            preference,
                        };
                        assert(c@.neighbor.bssid =~= e.body.subrange(0, 6));
                        assert(c@ == candidate(e.body));
                        list.push(c);
                        assert(candidate_views(list@) =~= candidate_views(before).push(c@));
                    }
                    proof {
                        let next = done.push(e);
                        assert(next.drop_last() =~= done);
                        assert(done + (seq![e] + tlv::elements_from(body@, end as int)) =~= next
                            + tlv::elements_from(body@, end as int));
                        done = next;
                    }
                    pos = end;
                },
            }
        }
    }
    Some(
        BtmRequest {
            dialog_token,
            preferred_candidates: req_mode & REQ_MODE_PREF_CAND_LIST != 0,
            disassoc_timer,
            validity_interval,
            candidates: list,
        },
    )
}

/// Build a BTM Response action frame (category + action + body): Dialog
/// Token (1) || Status Code (1) || BSS Termination Delay (1) || Target BSSID
/// (6). The target BSSID is the accepted candidate; zero bytes reject
/// without naming a BSS.
pub fn build_btm_response(dialog_token: u8, status: u8, target_bssid: [u8; ETH_ALEN]) -> (r: Vec<
    u8,
>)
    ensures
        r@ == seq![WNM_ACTION_CATEGORY, BTM_RESPONSE_ACTION, dialog_token, status, 0]
            + target_bssid@,
        r@.len() == 11,
        r@.subrange(0, 5) == seq![10u8, 8, dialog_token, status, 0],
        r@.subrange(5, 11) == target_bssid@,
{
    let mut frame: Vec<u8> = Vec::new();
    frame.push(WNM_ACTION_CATEGORY);
    frame.push(BTM_RESPONSE_ACTION);
    frame.push(dialog_token);
    frame.push(status);
    frame.push(0);
    bytes::append(&mut frame, &target_bssid);
    assert(frame@ =~= seq![WNM_ACTION_CATEGORY, BTM_RESPONSE_ACTION, dialog_token, status, 0]
        + target_bssid@);
    assert(frame@.subrange(0, 5) =~= seq![10u8, 8, dialog_token, status, 0]);
    assert(frame@.subrange(5, 11) =~= target_bssid@);
    frame
}

} // verus!
