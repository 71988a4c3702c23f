//! What the decisions of the daemon come to: which settings a network gets,
//! which route is added, and how a run ends.

use vstd::prelude::*;

use crate::config::SaePwe;
use crate::daemon::config::{bound_ifaces, entries_on, Entry, SaePweConfig, WifiEntry};
use crate::daemon::ip::{
    highest_metric, is_default_route, is_installed, lines, new_metric, DefaultRoute, IpValue,
    RouteInfo,
};
use crate::daemon::run::{any_connected, entry_for, entry_named, first_failure, TaskResult};
use crate::error::WifiError;

verus! {

/// A configured network reaches the client with all its settings: its name,
/// password, credentials and switches are those of the entry, nothing is hinted,
/// and a choice of the password element keeps its meaning.
pub proof fn law_entry_settings(e: Entry)
    ensures
        ({
            let n = e.network();
            &&& n.ssid == e.ssid
            &&& n.password == e.password
            &&& n.eap == e.eap
            &&& n.sae_password_id == e.sae_password_id
            &&& n.hidden == e.hidden
            &&& n.roaming == e.roaming
            &&& n.roaming_threshold == e.roaming_threshold
            &&& n.switch_ssid_lower_than_dbm == e.switch_ssid_lower_than_dbm
            &&& n.wowlan == e.wowlan
            &&& n.ocv == e.ocv
            &&& n.ext_key_id == e.ext_key_id
            &&& n.sae_pwe == SaePwe::Auto <==> e.sae_pwe == SaePweConfig::Auto
            &&& n.sae_pwe == SaePwe::H2E <==> e.sae_pwe == SaePweConfig::H2e
            &&& n.sae_pwe == SaePwe::HnP <==> e.sae_pwe == SaePweConfig::Hnp
            &&& !n.hints.scan_free()
            &&& n.hints.frequencies_mhz.len() == 0
        }),
{
}

/// A network goes to the interface it names, and to the common one where it
/// names none or says `any`.
pub proof fn law_entry_interface(e: Entry, common: Seq<char>)
    ensures
        e.interface is None ==> e.bound_to(common) == common,
        e.interface == Some(seq!['a', 'n', 'y']) ==> e.bound_to(common) == common,
        e.interface is Some && e.interface->0 != seq!['a', 'n', 'y'] ==> e.bound_to(common)
            == e.interface->0,
{
    reveal_strlit("any");
    assert("any"@ =~= seq!['a', 'n', 'y']);
}

/// The entry of a connection is the first with its SSID in the first group of
/// its interface.
pub proof fn law_entry_of_connection(
    groups: Seq<(String, Vec<WifiEntry>)>,
    iface_name: Seq<char>,
    ssid: Seq<char>,
    g: int,
    i: int,
)
    requires
        0 <= g < groups.len(),
        groups[g].0@ == iface_name,
        forall|k: int| 0 <= k < g ==> (#[trigger] groups[k]).0@ != iface_name,
        0 <= i < groups[g].1@.len(),
        groups[g].1@[i].ssid@ == ssid,
        forall|k: int| 0 <= k < i ==> (#[trigger] groups[g].1@[k]).ssid@ != ssid,
    ensures
        entry_for(groups, iface_name, ssid) == Some(groups[g].1@[i]@),
    decreases groups.len(),
{
    if g == 0 {
        lemma_entry_named(groups[0].1@, ssid, i);
    } else {
        assert(groups[0].0@ != iface_name);
        let rest = groups.drop_first();
        assert(rest[g - 1] == groups[g]);
        assert forall|k: int| 0 <= k < g - 1 implies (#[trigger] rest[k]).0@ != iface_name by {
            assert(rest[k] == groups[k + 1]);
        }
        law_entry_of_connection(rest, iface_name, ssid, g - 1, i);
    }
}

/// The first entry with an SSID is the one found.
proof fn lemma_entry_named(entries: Seq<WifiEntry>, ssid: Seq<char>, i: int)
    requires
        0 <= i < entries.len(),
        entries[i].ssid@ == ssid,
        forall|k: int| 0 <= k < i ==> (#[trigger] entries[k]).ssid@ != ssid,
    ensures
        entry_named(entries, ssid) == Some(entries[i]@),
    decreases entries.len(),
{
    if i > 0 {
        assert(entries[0].ssid@ != ssid);
        let rest = entries.drop_first();
        assert(rest[i - 1] == entries[i]);
        assert forall|k: int| 0 <= k < i - 1 implies (#[trigger] rest[k]).ssid@ != ssid by {
            assert(rest[k] == entries[k + 1]);
        }
        lemma_entry_named(rest, ssid, i - 1);
    }
}

/// A default route is a unicast route of the main table (254, or none named) to
/// everywhere (a prefix of length 0) through a gateway.
pub proof fn law_default_routes(route: RouteInfo)
    ensures
        is_default_route(route) ==> route.unicast && route.gateway is Some
            && route.destination_prefix_length == 0,
        is_default_route(route) ==> (route.table matches Some(t) ==> t == 254),
        route.unicast && route.gateway is Some && route.destination_prefix_length == 0 && (
        route.table is None || route.table == Some(254u32)) ==> is_default_route(route),
{
}

/// The highest metric of some routes is that of one of them.
proof fn lemma_highest_is_attained(routes: Seq<DefaultRoute>)
    ensures
        highest_metric(routes) is Some ==> exists|i: int|
            0 <= i < routes.len() && (#[trigger] routes[i]).metric == highest_metric(routes),
        highest_metric(routes) is None ==> forall|i: int|
            0 <= i < routes.len() ==> (#[trigger] routes[i]).metric is None,
    decreases routes.len(),
{
    if routes.len() > 0 {
        let front = routes.drop_last();
        lemma_highest_is_attained(front);
        assert(forall|i: int| 0 <= i < front.len() ==> front[i] == #[trigger] routes[i]);
        let n = routes.len() - 1;
        if highest_metric(front) is Some && highest_metric(routes) == highest_metric(front) {
            let i = choose|i: int|
                0 <= i < front.len() && (#[trigger] front[i]).metric == highest_metric(front);
            assert(routes[i].metric == highest_metric(routes));
        } else if highest_metric(routes) is Some {
            assert(routes[n].metric == highest_metric(routes));
        }
    }
}

/// The metric of an added route: left to the kernel where there is no default
/// route, 500 where none of them has a metric, and otherwise one more than that
/// of the least preferred.
pub proof fn law_metric_of_a_new_route(routes: Seq<DefaultRoute>)
    ensures
        routes.len() == 0 <==> new_metric(routes) is None,
        routes.len() > 0 && (forall|i: int|
            0 <= i < routes.len() ==> (#[trigger] routes[i]).metric is None) ==> new_metric(routes)
            == Some(500u32),
        (exists|i: int| 0 <= i < routes.len() && (#[trigger] routes[i]).metric is Some)
            ==> exists|i: int|
            {
                &&& 0 <= i < routes.len()
                &&& (#[trigger] routes[i]).metric matches Some(m)
                &&& new_metric(routes) == Some(
                    if m < u32::MAX {
                        (m + 1) as u32
                    } else {
                        m
                    },
                )
            },
{
    lemma_highest_is_attained(routes);
    if exists|i: int| 0 <= i < routes.len() && (#[trigger] routes[i]).metric is Some {
        assert(highest_metric(routes) is Some);
        let i = choose|i: int|
            0 <= i < routes.len() && (#[trigger] routes[i]).metric == highest_metric(routes);
        assert(routes[i].metric is Some);
    } else if routes.len() > 0 {
        assert(highest_metric(routes) is None) by {
            if highest_metric(routes) is Some {
                let i = choose|i: int|
                    0 <= i < routes.len() && (#[trigger] routes[i]).metric == highest_metric(
                        routes,
                    );
                assert(routes[i].metric is Some);
            }
        }
    }
}

/// A route counts as installed exactly where one with the same gateway goes out
/// by the same interface.
pub proof fn law_installed_routes(
    routes: Seq<DefaultRoute>,
    r: DefaultRoute,
    gateway: IpValue,
    oif: u32,
)
    ensures
        is_installed(routes.push(r), gateway, oif) <==> is_installed(routes, gateway, oif) || (
        r.gateway@ == gateway && r.oif == oif),
{
    let all = routes.push(r);
    assert(all[routes.len() as int] == r);
    assert(forall|i: int| 0 <= i < routes.len() ==> #[trigger] all[i] == routes[i]);
    if is_installed(routes, gateway, oif) {
        let i = choose|i: int|
            0 <= i < routes.len() && (#[trigger] routes[i]).gateway@ == gateway && routes[i].oif
                == oif;
        assert(all[i].gateway@ == gateway && all[i].oif == oif);
    }
    if is_installed(all, gateway, oif) && !(r.gateway@ == gateway && r.oif == oif) {
        let i = choose|i: int|
            0 <= i < all.len() && (#[trigger] all[i]).gateway@ == gateway && all[i].oif == oif;
        assert(routes[i].gateway@ == gateway);
    }
}

/// Each value of a list gets a line of its own, behind the keyword, in the order
/// of the list.
pub proof fn law_lines(keyword: Seq<char>, list: Seq<Seq<char>>, value: Seq<char>)
    ensures
        lines(keyword, Seq::empty()).len() == 0,
        lines(keyword, list.push(value)) == lines(keyword, list) + keyword + value + seq!['\n'],
{
    assert(list.push(value).drop_last() =~= list);
    reveal_strlit("\n");
    assert("\n"@ =~= seq!['\n']);
    assert(lines(keyword, list) + (keyword + value + "\n"@) =~= lines(keyword, list) + keyword
        + value + seq!['\n']);
}

/// A run succeeds where any of its interfaces ever had a connection, and
/// otherwise fails for the first failure.
pub proof fn law_first_failure(results: Seq<TaskResult>, i: int, e: WifiError)
    requires
        0 <= i < results.len(),
        results[i] == TaskResult::Failed(e),
        forall|k: int| 0 <= k < i ==> !((#[trigger] results[k]) is Failed),
    ensures
        first_failure(results) == Some(e),
    decreases results.len(),
{
    let front = results.drop_last();
    if i < results.len() - 1 {
        assert(front[i] == results[i]);
        assert(forall|k: int| 0 <= k < front.len() ==> front[k] == #[trigger] results[k]);
        law_first_failure(front, i, e);
    } else {
        lemma_no_failure(front);
    }
}

/// Without a failure none is found.
proof fn lemma_no_failure(results: Seq<TaskResult>)
    requires
        forall|k: int| 0 <= k < results.len() ==> !((#[trigger] results[k]) is Failed),
    ensures
        first_failure(results) is None,
    decreases results.len(),
{
    if results.len() > 0 {
        assert(!(results[results.len() - 1] is Failed));
        lemma_no_failure(results.drop_last());
    }
}

/// One finished task that had a connection is enough.
pub proof fn law_any_connection_counts(results: Seq<TaskResult>, r: TaskResult)
    ensures
        any_connected(results.push(r)) <==> any_connected(results) || r == TaskResult::Finished(
            true,
        ),
        !any_connected(Seq::empty()),
{
    let all = results.push(r);
    assert(all[results.len() as int] == r);
    assert(forall|i: int| 0 <= i < results.len() ==> #[trigger] all[i] == results[i]);
    if any_connected(results) {
        let i = choose|i: int|
            0 <= i < results.len() && #[trigger] results[i] == TaskResult::Finished(true);
        assert(all[i] == TaskResult::Finished(true));
    }
}

/// Networks are grouped in the order in which they are configured: one more
/// entry joins the group of its interface at the end, and makes a group of its
/// own, the last one, where there is none yet.
pub proof fn law_groups_in_order(entries: Seq<Entry>, e: Entry, common: Seq<char>, iface: Seq<char>)
    ensures
        ({
            let before = bound_ifaces(entries, common);
            let after = bound_ifaces(entries.push(e), common);
            let own = e.bound_to(common);
            if before.contains(own) {
                after == before
            } else {
                after == before.push(own)
            }
        }),
        entries_on(entries.push(e), common, iface) == if e.bound_to(common) == iface {
            entries_on(entries, common, iface).push(e)
        } else {
            entries_on(entries, common, iface)
        },
        bound_ifaces(Seq::empty(), common).len() == 0,
        entries_on(Seq::empty(), common, iface).len() == 0,
{
    assert(entries.push(e).drop_last() =~= entries);
}

} // verus!
