//! What the kernel says of an interface and its wiphy, and scheduled-scan
//! chunks within the limits of the wiphy.

use vstd::prelude::*;

use crate::bytes;
use crate::config;
use crate::error::{ErrorKind, WifiError};
use crate::text;

verus! {

/// Cap on specific-SSID probes in one scheduled-scan request.
pub const MAX_SCHED_SCAN_SSIDS: usize = 16;

/// Hardware scheduled scan (PNO) capabilities of a wiphy. The kernel omits
/// the SSID limit for drivers without a `sched_scan_start` op, so its
/// presence means the feature is available.
#[derive(Debug, Clone, Copy, PartialEq, Eq)]
pub struct WiphySchedScanCaps {
    pub supported: bool,
    pub max_ssids: usize,
    pub max_match_sets: usize,
}

/// The capabilities that the limits of a wiphy mean; 0 where the wiphy gives
/// none.
pub fn sched_scan_caps(max_ssids: u8, max_match_sets: u8) -> (r: WiphySchedScanCaps)
    ensures
        r.supported == (max_ssids > 0),
        r.max_ssids == max_ssids,
        r.max_match_sets == max_match_sets,
{
    WiphySchedScanCaps {
        supported: max_ssids > 0,
        max_ssids: max_ssids as usize,
        max_match_sets: max_match_sets as usize,
    }
}

/// The texts of strings.
pub open spec fn texts(list: Seq<String>) -> Seq<Seq<char>> {
    Seq::new(list.len(), |i: int| list[i]@)
}

/// How many specific SSIDs fit in a chunk beside the wildcard entry.
pub open spec fn specific_cap(wildcard: bool, cap: nat) -> nat {
    let cap = if cap < 1 {
        1
    } else if cap > MAX_SCHED_SCAN_SSIDS {
        MAX_SCHED_SCAN_SSIDS as nat
    } else {
        cap
    };
    if wildcard {
        (cap - 1) as nat
    } else {
        cap
    }
}

/// The SSIDs that a chunk takes from the hidden list, from a position on.
pub open spec fn chunk(hidden: Seq<Seq<char>>, from: nat, per: nat) -> Seq<Seq<char>> {
    let start = if from < hidden.len() {
        from
    } else {
        hidden.len()
    };
    let end = if start + per < hidden.len() {
        start + per
    } else {
        hidden.len()
    };
    hidden.subrange(start as int, end as int)
}

/// Whether hidden SSIDs remain after a chunk.
pub open spec fn chunk_leaves_more(hidden: Seq<Seq<char>>, from: nat, per: nat) -> bool {
    from < hidden.len() && from + per < hidden.len()
}

/// The wildcard entry of a chunk.
pub open spec fn wildcard_entry(wildcard: bool) -> Seq<Seq<char>> {
    if wildcard {
        seq![Seq::<char>::empty()]
    } else {
        Seq::empty()
    }
}

/// Build one PNO chunk: reserve one slot for the wildcard probe when visible
/// networks are configured, then take a contiguous slice of the rotating
/// hidden SSID list within `cap`. Returns `(ssids, more)` where `more` is
/// true when hidden SSIDs remain for a later chunk.
pub fn next_sched_scan_ssids(
    hidden_ssids: &[String],
    wildcard: bool,
    cursor: &mut usize,
    cap: usize,
) -> (r: (Vec<String>, bool))
    ensures
        ({
            let hidden = texts(hidden_ssids@);
            let per = specific_cap(wildcard, cap as nat);
            let from = *old(cursor) as nat;
            &&& texts(r.0@) == wildcard_entry(wildcard) + chunk(hidden, from, per)
            &&& r.1 == chunk_leaves_more(hidden, from, per)
            &&& *final(cursor) == if r.1 {
                from + per
            } else {
                0
            }
        }),
{
    let cap: usize = if cap < 1 {
        1
    } else if cap > MAX_SCHED_SCAN_SSIDS {
        MAX_SCHED_SCAN_SSIDS
    } else {
        cap
    };
    let specific: usize = if wildcard {
        cap - 1
    } else {
        cap
    };
    let mut ssids: Vec<String> = Vec::new();
    if wildcard {
        ssids.push(String::new());
    }
    let ghost head = texts(ssids@);
    let ghost hidden = texts(hidden_ssids@);
    assert(head =~= wildcard_entry(wildcard));
    let start: usize = if *cursor < hidden_ssids.len() {
        *cursor
    } else {
        hidden_ssids.len()
    };
    let mut idx: usize = start;
    let mut added: usize = 0;
    assert(texts(ssids@) =~= head + hidden.subrange(start as int, idx as int));
    while idx < hidden_ssids.len() && added < specific
        invariant
            start <= idx <= hidden_ssids@.len(),
            added == idx - start,
            added <= specific,
            hidden == texts(hidden_ssids@),
            texts(ssids@) == head + hidden.subrange(start as int, idx as int),
        decreases hidden_ssids@.len() - idx,
    {
        let ghost before = ssids@;
        ssids.push(config::copy_text(&hidden_ssids[idx]));
        idx = idx + 1;
        added = added + 1;
        assert(texts(ssids@) =~= texts(before).push(hidden[idx - 1]));
        assert(texts(ssids@) =~= head + hidden.subrange(start as int, idx as int));
    }
    let more = idx < hidden_ssids.len();
    *cursor = if more {
        idx
    } else {
        0
    };
    (ssids, more)
}

/// The hidden SSIDs that the chunks of a rotation take, from a position on
/// until no more remain.
pub open spec fn rotation(hidden: Seq<Seq<char>>, from: nat, per: nat) -> Seq<Seq<char>>
    decreases hidden.len() - from,
{
    if per > 0 && chunk_leaves_more(hidden, from, per) {
        chunk(hidden, from, per) + rotation(hidden, from + per, per)
    } else {
        chunk(hidden, from, per)
    }
}

/// A rotation covers every hidden SSID, once and in order: the chunks from
/// the first one on, until none remain, make up the list.
pub proof fn law_rotation_covers_all(hidden: Seq<Seq<char>>, per: nat)
    requires
        per > 0,
    ensures
        rotation(hidden, 0, per) == hidden,
{
    lemma_rotation(hidden, 0, per);
    assert(hidden.subrange(0, hidden.len() as int) =~= hidden);
}

/// A rotation from a position covers the rest of the list.
proof fn lemma_rotation(hidden: Seq<Seq<char>>, from: nat, per: nat)
    requires
        per > 0,
        from <= hidden.len(),
    ensures
        rotation(hidden, from, per) == hidden.subrange(from as int, hidden.len() as int),
    decreases hidden.len() - from,
{
    if chunk_leaves_more(hidden, from, per) {
        lemma_rotation(hidden, from + per, per);
        assert(chunk(hidden, from, per) + hidden.subrange(
            (from + per) as int,
            hidden.len() as int,
        ) =~= hidden.subrange(from as int, hidden.len() as int));
    }
}

/// A chunk never holds more entries than one request may carry.
pub proof fn law_chunk_fits(hidden: Seq<Seq<char>>, wildcard: bool, from: nat, cap: nat)
    ensures
        (wildcard_entry(wildcard) + chunk(hidden, from, specific_cap(wildcard, cap))).len()
            <= MAX_SCHED_SCAN_SSIDS,
        cap >= 1 ==> (wildcard_entry(wildcard) + chunk(
            hidden,
            from,
            specific_cap(wildcard, cap),
        )).len() <= cap,
{
}

/// What identifies an interface: its index, its address and its wiphy, from
/// what the kernel says of the interface named `ifname`; `message` is the
/// kernel's answer in words. An index of 0 and an all-zero address are
/// missing ones.
pub fn interface_identity(
    ifname: &str,
    if_index: u32,
    mac: [u8; 6],
    wiphy: Option<u32>,
    message: &str,
) -> (r: Result<(u32, [u8; 6], u32), WifiError>)
    ensures
        if if_index == 0 || mac@ == bytes::zeros(6) {
            r matches Err(e) && e.is(
                ErrorKind::InterfaceNotFound,
                "interface "@ + ifname@ + ": index or mac not found in netlink message: "@
                    + message@,
            )
        } else {
            match wiphy {
                Some(w) => r == Ok::<(u32, [u8; 6], u32), WifiError>((if_index, mac, w)),
                None => r matches Err(e) && e.is(
                    ErrorKind::Nl80211,
                    "interface "@ + ifname@ + ": wiphy index missing from netlink message: "@
                        + message@,
                ),
            }
        },
{
    let zero: [u8; 6] = [0u8; 6];
    assert(zero@ =~= bytes::zeros(6));
    let mut msg = text::text2("interface ", ifname);
    if if_index == 0 || bytes::same(&mac, &zero) {
        msg.append(": index or mac not found in netlink message: ");
        msg.append(message);
        return Err(WifiError::new(ErrorKind::InterfaceNotFound, msg.as_str()));
    }
    match wiphy {
        Some(w) => Ok((if_index, mac, w)),
        None => {
            msg.append(": wiphy index missing from netlink message: ");
            msg.append(message);
            Err(WifiError::new(ErrorKind::Nl80211, msg.as_str()))
        },
    }
}

/// The error that there is no interface of a name.
pub fn interface_not_found(ifname: &str) -> (e: WifiError)
    ensures
        e.is(ErrorKind::InterfaceNotFound, "interface "@ + ifname@ + " not found"@),
{
    let mut msg = text::text2("interface ", ifname);
    msg.append(" not found");
    WifiError::new(ErrorKind::InterfaceNotFound, msg.as_str())
}

} // verus!
