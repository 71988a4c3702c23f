//! Radio Resource Measurement (RRM, 802.11k) action frames: the Neighbor
//! Report Request / Response used to narrow a signal-triggered roam scan to
//! the channels the connected AP considers part of the ESS.
//!
//! Action numbers follow 802.11-2016 Table 9-43: 4 is the Neighbor Report
//! Request, 5 the Neighbor Report Response.

use vstd::prelude::*;

use crate::bytes;
use crate::ieee80211::tlv;
use crate::ETH_ALEN;

verus! {

/// Radio Measurement action category (802.11-2016 Table 9-42).
pub const RRM_ACTION_CATEGORY: u8 = 5;

/// Radio Measurement action: Neighbor Report Request.
pub const NEIGHBOR_REPORT_REQUEST_ACTION: u8 = 4;

/// Radio Measurement action: Neighbor Report Response.
pub const NEIGHBOR_REPORT_RESPONSE_ACTION: u8 = 5;

/// Neighbor Report element ID.
pub const IE_ID_NEIGHBOR_REPORT: u8 = 52;

/// One Neighbor Report element (802.11k): BSSID + BSSID Information +
/// Operating Class + Channel Number + PHY type, followed by optional
/// subelements. This is the format hostapd and iwd use (the minimum element
/// payload is 13 octets).
#[derive(Debug, Clone, PartialEq, Eq)]
#[non_exhaustive]
pub struct NeighborReportEntry {
    pub bssid: [u8; ETH_ALEN],
    pub bssid_info: u32,
    pub operating_class: u8,
    pub channel: u8,
    pub phy_type: u8,
}

/// A parsed Neighbor Report Response.
#[derive(Debug, Clone, PartialEq, Eq)]
#[non_exhaustive]
pub struct NeighborReportResponse {
    pub dialog_token: u8,
    pub entries: Vec<NeighborReportEntry>,
}

/// The fields of one Neighbor Report element.
pub struct Neighbor {
    pub bssid: Seq<u8>,
    pub bssid_info: u32,
    pub operating_class: u8,
    pub channel: u8,
    pub phy_type: u8,
}

impl View for NeighborReportEntry {
    type V = Neighbor;

    open spec fn view(&self) -> Neighbor {
        Neighbor {
            bssid: self.bssid@,
            bssid_info: self.bssid_info,
            operating_class: self.operating_class,
            channel: self.channel,
            phy_type: self.phy_type,
        }
    }
}

/// Whether an element is a Neighbor Report with all its mandatory fields.
pub open spec fn is_neighbor(e: tlv::Element) -> bool {
    e.id == IE_ID_NEIGHBOR_REPORT && e.body.len() >= 13
}

/// The fields of a Neighbor Report element.
pub open spec fn neighbor(body: Seq<u8>) -> Neighbor {
    Neighbor {
        bssid: body.subrange(0, 6),
        bssid_info: bytes::le32(body[6], body[7], body[8], body[9]),
        operating_class: body[10],
        channel: body[11],
        phy_type: body[12],
    }
}

/// The Neighbor Reports among a list of elements, in order.
pub open spec fn neighbors(list: Seq<tlv::Element>) -> Seq<Neighbor>
    decreases list.len(),
{
    if list.len() == 0 {
        Seq::empty()
    } else if is_neighbor(list.last()) {
        neighbors(list.drop_last()).push(neighbor(list.last().body))
    } else {
        neighbors(list.drop_last())
    }
}

/// The views of a list of entries.
pub open spec fn entry_views(entries: Seq<NeighborReportEntry>) -> Seq<Neighbor> {
    entries.map_values(|e: NeighborReportEntry| e@)
}

/// Build a Neighbor Report Request action frame body (category, action, and
/// dialog token). iwd sends just the dialog token; a non-zero token is
/// required.
pub fn build_neighbor_report_request(dialog_token: u8) -> (r: Vec<u8>)
    ensures
        r@ == seq![RRM_ACTION_CATEGORY, NEIGHBOR_REPORT_REQUEST_ACTION, dialog_token],
        r@ == seq![5u8, 4, dialog_token],
{
    let mut r: Vec<u8> = Vec::new();
    r.push(RRM_ACTION_CATEGORY);
    r.push(NEIGHBOR_REPORT_REQUEST_ACTION);
    r.push(dialog_token);
    assert(r@ =~= seq![RRM_ACTION_CATEGORY, NEIGHBOR_REPORT_REQUEST_ACTION, dialog_token]);
    r
}

/// Parse a Neighbor Report Response from the action frame body (after the
/// category and action octets): dialog token followed by Neighbor Report
/// elements. Other elements, and Neighbor Reports that are too short, are
/// skipped; an incomplete element ends the list.
pub fn parse_neighbor_report_response(body: &[u8]) -> (r: Option<NeighborReportResponse>)
    ensures
        r is Some <==> body@.len() > 0,
        r matches Some(resp) ==> {
            &&& resp.dialog_token == body@[0]
            &&& entry_views(resp.entries@) == neighbors(tlv::elements_from(body@, 1))
        },
{
    if body.len() == 0 {
        return None;
    }
    let dialog_token: u8 = body[0];
    let mut entries: Vec<NeighborReportEntry> = Vec::new();
    let mut pos: usize = 1;
    let ghost mut done: Seq<tlv::Element> = Seq::empty();
    assert(entry_views(entries@) =~= neighbors(done));
    assert(done + tlv::elements_from(body@, 1) =~= tlv::elements_from(body@, 1));
    loop
        invariant
            1 <= pos <= body@.len(),
            entry_views(entries@) == neighbors(done),
            tlv::elements_from(body@, 1) == done + tlv::elements_from(body@, pos as int),
        ensures
            entry_views(entries@) == neighbors(tlv::elements_from(body@, 1)),
        decreases body@.len() - pos,
    {
        match tlv::next_end(body, pos) {
            None => {
                assert(done + tlv::elements_from(body@, pos as int) =~= done);
                break ;
            },
            Some(end) => {
                let ghost e = tlv::element_at(body@, pos as int);
                let ghost before = entries@;
                if body[pos] == IE_ID_NEIGHBOR_REPORT && end - pos - 2 >= 13 {
                    let start: usize = pos + 2;
                    let entry = NeighborReportEntry {
                        bssid: bytes::array6(body, start),
                        bssid_info: bytes::read_le32(body, start + 6),
                        operating_class: body[start + 10],
                        channel: body[start + 11],
                        phy_type: body[start + 12],
                    };
                    assert(entry@.bssid =~= e.body.subrange(0, 6));
                    assert(entry@ == neighbor(e.body));
                    entries.push(entry);
                    assert(entry_views(entries@) =~= entry_views(before).push(entry@));
                }
                proof {
                    let next = done.push(e);
                    assert(next.drop_last() =~= done);
                    assert(done + (seq![e] + tlv::elements_from(body@, end as int)) =~= next
                        + tlv::elements_from(body@, end as int));
                    done = next;
                }
                pos = end;
            },
        }
    }
    Some(NeighborReportResponse { dialog_token, entries })
}

} // verus!
