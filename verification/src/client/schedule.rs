//! When the client acts: how long it waits in each state, how its retries grow
//! apart, what its scheduled scans ask for, and what a changed configuration or
//! a wakeup does to a connection.

use vstd::prelude::*;

use crate::client::control::{arm_outcome, update_outcome, ArmStep, UpdateStep};
use crate::client::policy;
use crate::client::policy::WowlanTrigger;
use crate::client::run::{
    backoff_after, echo_outcome, first_hinted, next_backoff, run_outcome, scan_outcome,
    start_outcome, RunStep, ScanOutcome, ScanStep, SchedStep,
};
use crate::client::sched_scan::{
    any_visible, request_cap, throttled, SchedScanRequest, StartOutcome,
};
use crate::client::select::{first_supported, is_match, is_selection, is_strongest, Candidate};
use crate::client::state::{ScanEngine, WifiIface, WifiState};
use crate::client::wifi_client::{first_repeated, names_error, routed};
use crate::client::wiphy;
use crate::config;
use crate::config::{Hints, Network, NetworkConfig};
use crate::error::{ErrorKind, WifiError};
use crate::scan::{BssInfo, SecurityType};

verus! {

/// How long each state waits: 15 s for an authentication event, but 2 s while a
/// commit may be sent again (three times); 5 s for the echo of a stopped
/// scheduled scan, the time of the chunk while there are more chunks, and 60 s
/// otherwise; 120 s after a failed authentication, and the growing interval
/// after any other failure. A failure ends a scheduled scan.
pub proof fn law_waits(before: WifiIface, after: WifiIface, r: RunStep)
    requires
        before.core.config.networks@.len() > 0,
        run_outcome(before, after, r),
    ensures
        before.state == WifiState::Authenticating ==> r == RunStep::WaitAuth(
            if before.auth.sae_commit_sent && before.auth.sae_sync < 3 {
                2
            } else {
                15
            },
        ),
        before.state == WifiState::SchedScanWait ==> r == RunStep::WaitSchedScan(
            if before.scan.sched_scan_stop_pending {
                5
            } else if before.scan.sched_scan_more {
                before.scan.sched_scan_timeout_secs
            } else {
                60
            },
        ),
        before.state == WifiState::FailedAuthentication ==> r == (RunStep::Backoff {
            stop_scan: before.scan.sched_scan_active,
            secs: 120,
        }),
        before.state == WifiState::Failed ==> r == (RunStep::Backoff {
            stop_scan: before.scan.sched_scan_active,
            secs: before.scan.scan_retry_interval,
        }),
        before.state == WifiState::Failed || before.state == WifiState::FailedAuthentication
            ==> !after.scan.sched_scan_active && (before.scan.sched_scan_active
            ==> after.scan.sched_scan_stop_pending),
        before.state == WifiState::Scanning ==> r is WaitScan,
        before.state.spec_is_connected() ==> r == (RunStep::WaitConnected {
            arm_cqm: !before.roam.cqm_armed && before.link.network.roaming && (
            before.link.bss_info.btm_support || before.link.bss_info.rm_neighbor_report),
        }),
        before.state == WifiState::Init ==> r is Scan || r is Authenticate,
{
}

/// Without a configured network nothing is done.
pub proof fn law_nothing_configured(before: WifiIface, after: WifiIface, r: RunStep)
    requires
        before.core.config.networks@.len() == 0,
        run_outcome(before, after, r),
    ensures
        r is Idle,
        after.state == WifiState::Init,
{
}

/// A first attempt goes without a scan exactly where a network is configured
/// with all that a scan would find, and no such attempt was made yet; it goes
/// to the first of those networks.
pub proof fn law_hinted_attempt(before: WifiIface, after: WifiIface, r: RunStep, i: int)
    requires
        before.core.config.networks@.len() > 0,
        before.state == WifiState::Init,
        run_outcome(before, after, r),
        0 <= i < before.core.config.nets().len(),
        before.core.config.nets()[i].hints.scan_free(),
        forall|k: int|
            0 <= k < i ==> !(#[trigger] before.core.config.nets()[k]).hints.scan_free(),
    ensures
        r is Authenticate <==> before.scan.hint_scan,
        r is Authenticate ==> after.link.network@ == before.core.config.nets()[i]
            && !after.scan.hint_scan,
        r is Authenticate ==> ({
            let hints = before.core.config.nets()[i].hints;
            let bss = after.link.bss_info;
            &&& bss.bssid@ == hints.bssid->0
            &&& bss.freq_mhz == hints.frequency_mhz->0
            &&& bss.security == hints.security->0
            &&& bss.ap_rsne@ == hints.ap_rsne->0
            &&& bss.ap_rsnxe@ == hints.ap_rsnxe->0
            &&& bss.group_mgmt_cipher == hints.group_mgmt_cipher->0
        }),
{
    lemma_first_hinted(before.core.config.nets(), i);
}

/// The first network with all the hints is the one found.
proof fn lemma_first_hinted(networks: Seq<Network>, i: int)
    requires
        0 <= i < networks.len(),
        networks[i].hints.scan_free(),
        forall|k: int| 0 <= k < i ==> !(#[trigger] networks[k]).hints.scan_free(),
    ensures
        first_hinted(networks) == Some(i),
    decreases networks.len(),
{
    if i > 0 {
        assert(!networks[0].hints.scan_free());
        let rest = networks.drop_first();
        assert forall|k: int| 0 <= k < i - 1 implies !(#[trigger] rest[k]).hints.scan_free() by {
            assert(rest[k] == networks[k + 1]);
        }
        lemma_first_hinted(rest, i - 1);
    }
}

/// What makes a scan needless: an address and a frequency that are not zero, a
/// supported security mode, both elements of the AP and the cipher.
pub proof fn law_scan_free_hints(h: Hints)
    requires
        h.bssid matches Some(b) ==> b.len() == 6,
    ensures
        h.scan_free() <==> {
            &&& h.bssid is Some && exists|i: int|
                0 <= i < 6 && (#[trigger] h.bssid->0[i]) != 0
            &&& h.frequency_mhz is Some && h.frequency_mhz->0 != 0
            &&& h.security is Some && h.security->0 != SecurityType::Unsupported
            &&& h.ap_rsne is Some && h.ap_rsnxe is Some && h.group_mgmt_cipher is Some
        },
{
    match h.bssid {
        Some(b) => {
            if forall|i: int| 0 <= i < 6 ==> (#[trigger] b[i]) == 0 {
                assert(b =~= crate::bytes::zeros(6));
            }
        },
        None => {},
    }
}

/// Retries grow apart: 10 s after the first failure, doubling to 20, 40, 80 and
/// 160 s, and 300 s from then on.
pub proof fn law_retry_intervals(failures: nat, secs: u64)
    requires
        secs < 0x8000_0000,
    ensures
        backoff_after(0) == 10,
        backoff_after(1) == 20,
        backoff_after(2) == 40,
        backoff_after(3) == 80,
        backoff_after(4) == 160,
        failures >= 5 ==> backoff_after(failures) == 300,
        secs < 150 ==> next_backoff(secs) == 2 * secs,
        secs >= 150 ==> next_backoff(secs) == 300,
    decreases failures,
{
    reveal_with_fuel(backoff_after, 7);
    if failures > 5 {
        law_retry_intervals((failures - 1) as nat, secs);
    }
}

/// Between chunks of a scheduled scan the time of a chunk is halved, down to two
/// seconds, and the interval doubled, up to 300 s; where the time would fall
/// below the interval both start over, at two seconds for each SSID and at 10 s.
pub proof fn law_chunks_slow_down(timeout: u64, interval: u32, cap: nat)
    requires
        interval <= 300,
        cap <= 16,
    ensures
        ({
            let (t, i) = throttled(timeout, interval, cap);
            ||| t == 2 * cap && i == 10
            ||| {
                &&& t >= i
                &&& t == timeout / 2 || t == 2 && timeout < 4
                &&& i == 2 * interval || i == 300 && 2 * interval > 300
            }
        }),
        timeout >= 4 && timeout / 2 >= 2 * interval && 2 * interval <= 300 ==> throttled(
            timeout,
            interval,
            cap,
        ) == ((timeout / 2) as u64, (2 * interval) as u32),
        timeout / 2 < 2 * interval && 4 < 2 * interval <= 300 ==> throttled(
            timeout,
            interval,
            cap,
        ) == ((2 * cap) as u64, 10u32),
{
}

/// There are no more hidden networks than networks.
proof fn lemma_hidden_are_few(networks: Seq<Network>)
    ensures
        config::hidden_of(networks).len() <= networks.len(),
    decreases networks.len(),
{
    if networks.len() > 0 {
        lemma_hidden_are_few(networks.drop_last());
    }
}

/// A scheduled scan asks for at most as many SSIDs as the device takes, and at
/// most 16. It asks for any SSID (an empty one, first) exactly where some
/// network is not hidden, and for hidden networks by name. Where the device can
/// match every network, it is told them all, in order.
pub proof fn law_scheduled_scan_request(
    before: WifiIface,
    after: WifiIface,
    req: SchedScanRequest,
)
    requires
        before.can_sched_scan(),
        before.asks_sched_scan(after, req),
    ensures
        req.ssids@.len() <= 16,
        req.ssids@.len() <= before.caps.max_sched_scan_ssids,
        (exists|i: int|
            0 <= i < before.core.config.nets().len() && !(#[trigger] before.core.config.nets()[i]).hidden)
            ==> req.ssids@.len() > 0 && req.ssids@[0]@.len() == 0,
        forall|k: int|
            0 <= k < req.ssids@.len() ==> {
                ||| k == 0 && any_visible(before.core.config.nets())
                ||| config::hidden_of(before.core.config.nets()).contains(
                    (#[trigger] req.ssids@[k])@,
                )
            },
        req.match_ssids is Some <==> 0 < before.caps.max_match_sets
            && before.core.config.nets().len() <= before.caps.max_match_sets,
        req.match_ssids matches Some(m) ==> m@.len() == before.core.config.nets().len() && forall|
            i: int,
        |
            0 <= i < m@.len() ==> (#[trigger] m@[i])@ == before.core.config.nets()[i].ssid,
        before.scan.sched_scan_first ==> req.interval_sec == 10
            && after.scan.sched_scan_timeout_secs == 2 * (if before.caps.max_sched_scan_ssids
            < 16 {
            before.caps.max_sched_scan_ssids as int
        } else {
            16
        }),
        !before.scan.sched_scan_first ==> req.interval_sec == before.scan.sched_scan_interval_sec,
        ({
            let nets = before.core.config.nets();
            let w: int = if any_visible(nets) {
                1
            } else {
                0
            };
            let next = before.scan.sched_scan_cursor + req.ssids@.len() - w;
            &&& after.scan.sched_scan_more ==> after.scan.sched_scan_cursor == next && next
                < config::hidden_of(nets).len()
            &&& !after.scan.sched_scan_more ==> after.scan.sched_scan_cursor == 0
            &&& before.scan.sched_scan_cursor < config::hidden_of(nets).len()
                && !after.scan.sched_scan_more ==> next == config::hidden_of(nets).len()
        }),
        after.scan.sched_scan_more ==> req.ssids@.len() == (if before.caps.max_sched_scan_ssids
            < 16 {
            before.caps.max_sched_scan_ssids as int
        } else {
            16
        }),
        after.state == before.state && after.link == before.link && after.auth == before.auth,
{
    let nets = before.core.config.nets();
    let hidden = config::hidden_of(nets);
    let wildcard = any_visible(nets);
    let cap = request_cap(before.caps);
    let per = wiphy::specific_cap(wildcard, cap);
    let from = before.scan.sched_scan_cursor as nat;
    wiphy::law_chunk_fits(hidden, wildcard, from, cap);
    lemma_hidden_are_few(nets);
    let count = before.core.config.networks.len();
    assert(nets.len() == count);
    let all = wiphy::wildcard_entry(wildcard) + wiphy::chunk(hidden, from, per);
    assert(wiphy::texts(req.ssids@).len() == req.ssids@.len());
    assert forall|k: int| 0 <= k < req.ssids@.len() implies {
        ||| k == 0 && any_visible(nets)
        ||| hidden.contains((#[trigger] req.ssids@[k])@)
    } by {
        assert(wiphy::texts(req.ssids@)[k] == req.ssids@[k]@);
        let w = wiphy::wildcard_entry(wildcard).len();
        if k >= w {
            assert(all[k] == wiphy::chunk(hidden, from, per)[k - w]);
        }
    }
    if wildcard {
        assert(wiphy::texts(req.ssids@)[0] == req.ssids@[0]@);
    }
    match req.match_ssids {
        Some(m) => {
            assert(wiphy::texts(m@).len() == m@.len());
            assert forall|i: int| 0 <= i < m@.len() implies (#[trigger] m@[i])@ == nets[i].ssid by {
                assert(wiphy::texts(m@)[i] == m@[i]@);
            }
        },
        None => {},
    }
}

/// The hidden networks are those configured as hidden, by their SSIDs.
pub proof fn law_hidden_networks(networks: Seq<Network>, ssid: Seq<char>)
    ensures
        config::hidden_of(networks).contains(ssid) <==> exists|i: int|
            0 <= i < networks.len() && (#[trigger] networks[i]).hidden && networks[i].ssid == ssid,
    decreases networks.len(),
{
    if networks.len() > 0 {
        let front = networks.drop_last();
        let found = config::hidden_of(front);
        law_hidden_networks(front, ssid);
        let last = networks.last();
        assert(networks[networks.len() - 1] == last);
        assert(forall|i: int| 0 <= i < front.len() ==> front[i] == #[trigger] networks[i]);
        if last.hidden {
            let all = found.push(last.ssid);
            assert(all[found.len() as int] == last.ssid);
            if found.contains(ssid) {
                let k = choose|k: int| 0 <= k < found.len() && found[k] == ssid;
                assert(all[k] == ssid);
            }
            if all.contains(ssid) && ssid != last.ssid {
                let k = choose|k: int| 0 <= k < all.len() && all[k] == ssid;
                assert(found[k] == ssid);
            }
        }
        if exists|i: int|
            0 <= i < front.len() && (#[trigger] front[i]).hidden && front[i].ssid == ssid {
            let i = choose|i: int|
                0 <= i < front.len() && (#[trigger] front[i]).hidden && front[i].ssid == ssid;
            assert(networks[i].hidden && networks[i].ssid == ssid);
        }
    }
}

/// A changed configuration leaves a connection alone exactly where its network
/// is still configured, and otherwise ends it and starts over; the cached
/// associations stay.
pub proof fn law_configuration_changes(
    before: WifiIface,
    after: WifiIface,
    networks: Vec<NetworkConfig>,
    r: UpdateStep,
)
    requires
        update_outcome(before, after, networks, r),
        config::network_views(networks@) != before.core.config.nets(),
    ensures
        ({
            let kept = before.state.spec_is_connected() && exists|i: int|
                0 <= i < networks@.len() && (#[trigger] networks@[i]).ssid@
                    == before.link.network.ssid@;
            &&& r == UpdateStep::Kept <==> kept
            &&& kept ==> after.state == before.state && after.link == before.link && after.auth
                == before.auth
            &&& !kept ==> after.state == WifiState::Init && after.link.fourway is None
                && after.auth.psk_pmk is None && after.scan.scan_retry_interval == 10
            &&& after.core.config.networks == networks
            &&& after.pmksa_cache == before.pmksa_cache
            &&& r matches UpdateStep::Reset { disconnect, .. } ==> disconnect
                == before.state.spec_is_connected()
            &&& r matches UpdateStep::Reset { stop_scan, .. } ==> stop_scan
                == before.scan.sched_scan_active
            &&& r matches UpdateStep::Reset { disarm, .. } ==> disarm == (
            before.state.spec_is_connected() && before.wowlan.armed)
        }),
{
    let new = config::network_views(networks@);
    let ssid = before.link.network.ssid@;
    if exists|i: int| 0 <= i < networks@.len() && (#[trigger] networks@[i]).ssid@ == ssid {
        let i = choose|i: int|
            0 <= i < networks@.len() && (#[trigger] networks@[i]).ssid@ == ssid;
        assert(new[i].ssid == ssid);
    }
    if WifiIface::keeps(new, ssid) {
        let i = choose|i: int| 0 <= i < new.len() && #[trigger] new[i].ssid == ssid;
        assert(networks@[i].ssid@ == ssid);
    }
}

/// The device is asked to wake the host on a disconnect and on a failed group
/// rekey, on whichever of the two it can, in this order and on nothing else; it
/// is asked once.
pub proof fn law_wake_triggers(iface: WifiIface, r: ArmStep, t: WowlanTrigger)
    requires
        arm_outcome(iface, r),
    ensures
        ({
            let can = iface.caps.wowlan_supported_triggers@;
            let d = can.contains(WowlanTrigger::Disconnect);
            let g = can.contains(WowlanTrigger::GtkRekeyFailure);
            &&& r is Armed <==> iface.wowlan.armed
            &&& r is Unsupported <==> !iface.wowlan.armed && !d && !g
            &&& r matches ArmStep::Request(l) ==> (l@.contains(t) <==> can.contains(t) && (t
                == WowlanTrigger::Disconnect || t == WowlanTrigger::GtkRekeyFailure))
            &&& r matches ArmStep::Request(l) ==> (d && g ==> l@[0] == WowlanTrigger::Disconnect
                && l@.len() == 2)
        }),
{
    let can = iface.caps.wowlan_supported_triggers@;
    let w = policy::wanted_triggers(can);
    let d = can.contains(WowlanTrigger::Disconnect);
    let g = can.contains(WowlanTrigger::GtkRekeyFailure);
    if d {
        assert(w[0] == WowlanTrigger::Disconnect);
    }
    if g {
        assert(w[w.len() - 1] == WowlanTrigger::GtkRekeyFailure);
    }
}

/// A wakeup breaks the connection exactly where a disconnect or a failed group
/// rekey is among its reasons.
pub proof fn law_breaking_wakeups(reasons: Seq<WowlanTrigger>)
    ensures
        policy::breaks_connection(reasons) <==> exists|i: int|
            0 <= i < reasons.len() && ((#[trigger] reasons[i]) == WowlanTrigger::Disconnect
                || reasons[i] == WowlanTrigger::GtkRekeyFailure),
{
    if policy::breaks_connection(reasons) {
        if reasons.contains(WowlanTrigger::Disconnect) {
            let i = choose|i: int|
                0 <= i < reasons.len() && reasons[i] == WowlanTrigger::Disconnect;
            assert(reasons[i] == WowlanTrigger::Disconnect);
        } else {
            let i = choose|i: int|
                0 <= i < reasons.len() && reasons[i] == WowlanTrigger::GtkRekeyFailure;
            assert(reasons[i] == WowlanTrigger::GtkRekeyFailure);
        }
    }
}

/// The mode of a list of AKMs is that of the first of them that is understood.
pub proof fn law_first_understood_akm(akms: Seq<u32>, i: int)
    requires
        0 <= i < akms.len(),
        crate::client::select::akm_security(akms[i]) != SecurityType::Unsupported,
        forall|k: int|
            0 <= k < i ==> crate::client::select::akm_security(#[trigger] akms[k])
                == SecurityType::Unsupported,
    ensures
        first_supported(akms) == crate::client::select::akm_security(akms[i]),
    decreases akms.len(),
{
    if i > 0 {
        assert(crate::client::select::akm_security(akms[0]) == SecurityType::Unsupported);
        let rest = akms.drop_first();
        assert forall|k: int|
            0 <= k < i - 1 implies crate::client::select::akm_security(#[trigger] rest[k])
            == SecurityType::Unsupported by {
            assert(rest[k] == akms[k + 1]);
        }
        law_first_understood_akm(rest, i - 1);
    }
}

/// A selected BSS has a configured SSID and a supported mode, and no listed BSS
/// with both has a stronger signal.
pub proof fn law_selection(
    networks: Seq<NetworkConfig>,
    candidates: Seq<Candidate>,
    network: NetworkConfig,
    bss: BssInfo,
    i: int,
    n: int,
    k: int,
    m: int,
)
    requires
        is_selection(networks, candidates, network, bss, i, n),
        0 <= k < candidates.len(),
        0 <= m < networks.len(),
        networks[m].ssid@ == candidates[k].ssid@,
        forall|j: int| 0 <= j < m ==> (#[trigger] networks[j]).ssid@ != candidates[k].ssid@,
        candidates[k].bss.security != SecurityType::Unsupported,
    ensures
        bss.signal_dbm >= candidates[k].bss.signal_dbm,
        bss.security != SecurityType::Unsupported,
        network.ssid@ == candidates[i].ssid@,
        bss == candidates[i].bss,
{
    assert(crate::client::select::is_network_of(networks, candidates[k].ssid@, m));
    assert(is_match(networks, candidates[k]));
    assert(is_strongest(networks, candidates, i));
    assert(network@.ssid == networks[n]@.ssid);
}

/// Interfaces are told apart by name: a set is refused exactly where it is empty
/// or a name occurs twice.
pub proof fn law_interface_names(names: Seq<Seq<char>>)
    ensures
        names_error(names) is Some <==> names.len() == 0 || exists|i: int, k: int|
            0 <= i < k < names.len() && #[trigger] names[i] == #[trigger] names[k],
{
    if names.len() > 0 {
        lemma_repeated(names);
    }
}

/// A name is found to be repeated exactly where it is.
proof fn lemma_repeated(names: Seq<Seq<char>>)
    ensures
        first_repeated(names) is Some <==> exists|i: int, k: int|
            0 <= i < k < names.len() && #[trigger] names[i] == #[trigger] names[k],
    decreases names.len(),
{
    if names.len() > 0 {
        let front = names.drop_last();
        let last = names.last();
        lemma_repeated(front);
        assert(forall|i: int| 0 <= i < front.len() ==> front[i] == #[trigger] names[i]);
        if first_repeated(front) is Some {
            let (i, k) = choose|i: int, k: int|
                0 <= i < k < front.len() && #[trigger] front[i] == #[trigger] front[k];
            assert(names[i] == names[k]);
        } else if front.contains(last) {
            let i = choose|i: int| 0 <= i < front.len() && front[i] == last;
            assert(names[i] == names[names.len() - 1]);
        } else {
            assert forall|i: int, k: int| 0 <= i < k < names.len() implies #[trigger] names[i]
                != #[trigger] names[k] by {
                if k < front.len() {
                    assert(front[i] != front[k]);
                } else {
                    assert(front.contains(front[i]));
                }
            }
        }
    }
}

/// An event goes to the interface whose index it names, and to every one where
/// it names none.
pub proof fn law_events_by_index(own: u32, named: u32)
    ensures
        routed(own, None),
        routed(own, Some(named)) <==> own == named,
{
}

/// A scan that finds a network leads to its authentication and resets the retry
/// interval to 10 s. One that finds none is repeated at once in full where it
/// was only over hinted channels, and otherwise goes on as a scheduled scan
/// where the device can; any other failure is reported as it is.
pub proof fn law_scan_results(
    before: WifiIface,
    after: WifiIface,
    outcome: ScanOutcome,
    r: Result<ScanStep, WifiError>,
)
    requires
        scan_outcome(before, after, outcome, r),
    ensures
        outcome matches ScanOutcome::Selected(network, bss) ==> {
            &&& r matches Ok(ScanStep::Authenticate)
            &&& after.link.network == network
            &&& after.link.bss_info == bss
            &&& after.scan.scan_retry_interval == 10
            &&& after.state == before.state
        },
        outcome matches ScanOutcome::NotSelected(e) ==> (e.kind != ErrorKind::SsidNotFound ==> r
            == Err::<ScanStep, WifiError>(e) && after == before),
        outcome matches ScanOutcome::NotSelected(e) ==> (e.kind == ErrorKind::SsidNotFound
            && before.scan.hint_scan ==> (r matches Ok(ScanStep::Scan)) && !after.scan.hint_scan),
        outcome matches ScanOutcome::NotSelected(e) ==> (e.kind == ErrorKind::SsidNotFound
            && !before.scan.hint_scan && !before.caps.sched_scan_supported ==> r == Err::<
            ScanStep,
            WifiError,
        >(e)),
        r matches Ok(ScanStep::SchedScan(req, error)) ==> outcome == ScanOutcome::NotSelected(error)
            && req.ssids@.len() <= 16,
{
    match r {
        Ok(ScanStep::SchedScan(req, error)) => {
            let fresh = WifiIface { scan: before.fresh_pno(), ..before };
            law_scheduled_scan_request(fresh, after, req);
        },
        _ => {},
    }
}

/// A scheduled scan that was started is active; one that the device refuses as
/// unsupported is never asked for again.
pub proof fn law_scheduled_scan_started(
    before: WifiIface,
    after: WifiIface,
    outcome: StartOutcome,
    running: WifiState,
    other: WifiState,
)
    requires
        start_outcome(before, after, outcome, running, other),
    ensures
        outcome is Started ==> after.scan.sched_scan_active && after.state == running,
        !(outcome is Started) ==> after.state == other && after.scan == before.scan,
        outcome is Unsupported ==> !after.can_sched_scan(),
        !(outcome is Unsupported) ==> after.caps == before.caps,
        after.link == before.link && after.auth == before.auth,
{
}

/// The same networks again change nothing.
pub proof fn law_same_configuration(
    before: WifiIface,
    after: WifiIface,
    networks: Vec<NetworkConfig>,
    r: UpdateStep,
)
    requires
        update_outcome(before, after, networks, r),
        config::network_views(networks@) == before.core.config.nets(),
    ensures
        r == UpdateStep::Unchanged,
        after == before,
{
}

/// An interface that ends has no scheduled scan and no armed trigger.
pub proof fn law_ended_interface(iface: WifiIface)
    ensures
        ({
            let after = iface.ended();
            &&& !after.scan.sched_scan_active
            &&& !after.wowlan.armed
            &&& iface.scan.sched_scan_active ==> after.scan.sched_scan_stop_pending
            &&& after.state == iface.state
            &&& after.pmksa_cache == iface.pmksa_cache
        }),
{
}

/// The echo of a stopped scheduled scan ends the wait for it. Between chunks the
/// next one is asked for, or the attempt fails where the device can do none.
pub proof fn law_stop_echo(before: WifiIface, after: WifiIface, r: SchedStep)
    requires
        echo_outcome(before, after, r),
    ensures
        !after.scan.sched_scan_stop_pending && !after.scan.sched_scan_rotate,
        !before.scan.sched_scan_rotate ==> r is Nothing && after.state == before.state,
        before.scan.sched_scan_rotate ==> (r is Start <==> before.can_sched_scan()),
        before.scan.sched_scan_rotate && !before.can_sched_scan() ==> after.state
            == WifiState::Failed,
        r matches SchedStep::Start(req) ==> req.ssids@.len() <= 16,
{
    let stopped = WifiIface {
        scan: ScanEngine {
            sched_scan_stop_pending: false,
            sched_scan_rotate: false,
            ..before.scan
        },
        ..before
    };
    match r {
        SchedStep::Start(req) => {
            law_scheduled_scan_request(stopped, after, req);
        },
        _ => {},
    }
}

/// Outside of a roam scan every change of the state is told, but for one back to
/// where the call began.
pub proof fn law_changes_surface(iface: WifiIface, prev: WifiState, baseline: WifiState)
    requires
        iface.roam.pre_roam_state is None,
    ensures
        iface.spec_surfaces(prev, baseline) <==> iface.state != prev && iface.state != baseline,
        iface.spec_baseline() == iface.state,
{
}

/// A chunk that others follow runs for half as long as the one before, at twice
/// the interval, while that leaves time for one interval; the last chunk starts
/// the rotation over.
pub proof fn law_started_chunk(
    before: WifiIface,
    after: WifiIface,
    running: WifiState,
    other: WifiState,
)
    requires
        start_outcome(before, after, StartOutcome::Started, running, other),
    ensures
        ({
            let (t, i) = (before.scan.sched_scan_timeout_secs, before.scan.sched_scan_interval_sec);
            &&& before.scan.sched_scan_more && t >= 4 && t / 2 >= 2 * i && 2 * i <= 300
                ==> after.scan.sched_scan_timeout_secs == t / 2
                && after.scan.sched_scan_interval_sec == 2 * i
            &&& !before.scan.sched_scan_more ==> after.scan.sched_scan_first
            &&& after.scan.sched_scan_cursor == before.scan.sched_scan_cursor
            &&& after.scan.sched_scan_more == before.scan.sched_scan_more
        }),
{
}

} // verus!
