//! IP settings of a connection: addresses, default routes and DNS.

use vstd::prelude::*;

use crate::bytes;
use crate::daemon::config::{copy_opt_dns, opt_dns, text_views, DnsConfig, IpConfig};
use crate::error::{ErrorKind, WifiError};
use crate::text;

verus! {

/// The main routing table.
pub const RT_TABLE_MAIN: u32 = 254;

/// The metric of a default route beside others that carry none.
pub const DEFAULT_METRIC: u32 = 500;

/// An IP address in network byte order.
#[derive(Debug, Clone, Copy, PartialEq, Eq)]
pub enum IpOctets {
    V4([u8; 4]),
    V6([u8; 16]),
}

/// An IP address as plain data.
#[verifier::ext_equal]
pub enum IpValue {
    V4(Seq<u8>),
    V6(Seq<u8>),
}

impl View for IpOctets {
    type V = IpValue;

    open spec fn view(&self) -> IpValue {
        match *self {
            IpOctets::V4(o) => IpValue::V4(o@),
            IpOctets::V6(o) => IpValue::V6(o@),
        }
    }
}

impl IpOctets {
    /// Whether two addresses are the same.
    pub fn same(&self, other: &Self) -> (r: bool)
        ensures
            r == (self@ == other@),
    {
        match (self, other) {
            (IpOctets::V4(a), IpOctets::V4(b)) => bytes::same(a, b),
            (IpOctets::V6(a), IpOctets::V6(b)) => bytes::same(a, b),
            _ => false,
        }
    }
}

/// A route as the kernel lists it.
#[derive(Debug, Clone, Copy)]
pub struct RouteInfo {
    /// The table, where the kernel names it: a missing one means the main
    /// table.
    pub table: Option<u32>,
    pub destination_prefix_length: u8,
    /// Whether it is a gateway or direct route.
    pub unicast: bool,
    pub gateway: Option<IpOctets>,
    pub metric: Option<u32>,
    pub oif: Option<u32>,
}

/// A default route: gateway, metric and output interface.
#[derive(Debug, Clone, Copy)]
pub struct DefaultRoute {
    pub gateway: IpOctets,
    pub metric: Option<u32>,
    pub oif: u32,
}

/// What to do about a default route.
#[derive(Debug, Clone, Copy, PartialEq, Eq, Structural)]
pub enum RouteStep {
    /// It is already installed.
    Installed,
    /// Add it with this metric; with none, the kernel's default.
    Install(Option<u32>),
}

/// Whether a listed route is a default route via a gateway in the main table.
/// Policy-routing defaults are ignored, so they can't skew the metric.
pub open spec fn is_default_route(route: RouteInfo) -> bool {
    &&& route.table is None || route.table == Some(RT_TABLE_MAIN)
    &&& route.destination_prefix_length == 0
    &&& route.unicast
    &&& route.gateway is Some
}

/// A listed route as a default route, where it is one.
pub fn default_route(route: &RouteInfo) -> (r: Option<DefaultRoute>)
    ensures
        r is Some <==> is_default_route(*route),
        r matches Some(d) ==> {
            &&& Some(d.gateway) == route.gateway
            &&& d.metric == route.metric
            &&& d.oif == match route.oif {
                Some(o) => o,
                None => 0,
            }
        },
{
    if let Some(table) = route.table {
        if table != RT_TABLE_MAIN {
            return None;
        }
    }
    if route.destination_prefix_length != 0 || !route.unicast {
        return None;
    }
    match route.gateway {
        Some(gateway) => Some(
            DefaultRoute {
                gateway,
                metric: route.metric,
                oif: match route.oif {
                    Some(o) => o,
                    None => 0,
                },
            },
        ),
        None => None,
    }
}

/// The highest metric that any of the routes carries.
pub open spec fn highest_metric(routes: Seq<DefaultRoute>) -> Option<u32>
    decreases routes.len(),
{
    if routes.len() == 0 {
        None
    } else {
        match (highest_metric(routes.drop_last()), routes.last().metric) {
            (Some(a), Some(b)) => Some(
                if a < b {
                    b
                } else {
                    a
                },
            ),
            (Some(a), None) => Some(a),
            (None, m) => m,
        }
    }
}

/// Whether a default route via a gateway on an interface is among routes.
pub open spec fn is_installed(
    routes: Seq<DefaultRoute>,
    gateway: IpValue,
    if_index: u32,
) -> bool {
    exists|i: int|
        0 <= i < routes.len() && (#[trigger] routes[i]).gateway@ == gateway && routes[i].oif
            == if_index
}

/// The metric of a new default route beside existing ones.
pub open spec fn new_metric(routes: Seq<DefaultRoute>) -> Option<u32> {
    if routes.len() == 0 {
        None
    } else {
        match highest_metric(routes) {
            Some(m) => Some(
                if m < u32::MAX {
                    (m + 1) as u32
                } else {
                    u32::MAX
                },
            ),
            None => Some(DEFAULT_METRIC),
        }
    }
}

/// How to add a default route via `gateway` on `if_index`.
///
/// Linux keeps at most one route per (table, prefix, metric) key, so on a host
/// that already has a default route a plain add would fail. To let both
/// coexist, the new route gets a metric (priority) larger than the current
/// default route's - i.e. less preferred - or 500 when the current route has
/// no metric. With no default route in the table the add keeps the
/// kernel-default priority. Re-applying an already installed gateway is a
/// no-op.
pub fn add_default_route(existing: &[DefaultRoute], if_index: u32, gateway: &IpOctets) -> (r:
    RouteStep)
    ensures
        r == if is_installed(existing@, gateway@, if_index) {
            RouteStep::Installed
        } else {
            RouteStep::Install(new_metric(existing@))
        },
{
    let mut highest: Option<u32> = None;
    let mut i: usize = 0;
    while i < existing.len()
        invariant
            i <= existing@.len(),
            highest == highest_metric(existing@.take(i as int)),
            forall|k: int|
                0 <= k < i ==> !((#[trigger] existing@[k]).gateway@ == gateway@ && existing@[k].oif
                    == if_index),
        decreases existing.len() - i,
    {
        let route = &existing[i];
        if route.gateway.same(gateway) && route.oif == if_index {
            return RouteStep::Installed;
        }
        assert(existing@.take(i + 1).drop_last() =~= existing@.take(i as int));
        highest = match (highest, route.metric) {
            (Some(a), Some(b)) => Some(
                if a < b {
                    b
                } else {
                    a
                },
            ),
            (Some(a), None) => Some(a),
            (None, m) => m,
        };
        i += 1;
    }
    assert(existing@.take(i as int) =~= existing@);
    if existing.len() == 0 {
        return RouteStep::Install(None);
    }
    match highest {
        Some(m) => RouteStep::Install(
            Some(
                if m < u32::MAX {
                    m + 1
                } else {
                    m
                },
            ),
        ),
        None => RouteStep::Install(Some(DEFAULT_METRIC)),
    }
}

/// Check that a gateway is of the family that it is configured for; `text` is
/// the gateway as configured.
pub fn check_gateway(gateway: &IpOctets, is_ipv6: bool, text: &str) -> (r: Result<(), WifiError>)
    ensures
        if is_ipv6 == (gateway is V6) {
            r is Ok
        } else {
            r matches Err(e) && e.is(
                ErrorKind::InvalidConfig,
                if is_ipv6 {
                    "IPv6 gateway must be v6: "@ + text@
                } else {
                    "IPv4 gateway must be v4: "@ + text@
                },
            )
        },
{
    let valid = match gateway {
        IpOctets::V6(_) => is_ipv6,
        IpOctets::V4(_) => !is_ipv6,
    };
    if valid {
        return Ok(());
    }
    let msg = if is_ipv6 {
        text::text2("IPv6 gateway must be v6: ", text)
    } else {
        text::text2("IPv4 gateway must be v4: ", text)
    };
    Err(WifiError::new(ErrorKind::InvalidConfig, msg.as_str()))
}

/// Lines of a keyword and a text each.
pub open spec fn lines(keyword: Seq<char>, list: Seq<Seq<char>>) -> Seq<char>
    decreases list.len(),
{
    if list.len() == 0 {
        Seq::empty()
    } else {
        lines(keyword, list.drop_last()) + (keyword + list.last() + "\n"@)
    }
}

/// Append a line of a keyword and a text for each text.
fn push_lines(content: &mut String, keyword: &str, list: &Vec<String>)
    ensures
        final(content)@ == old(content)@ + lines(keyword@, text_views(list@)),
{
    let ghost views = text_views(list@);
    let ghost start = content@;
    let mut i: usize = 0;
    assert(start =~= start + lines(keyword@, views.take(0)));
    while i < list.len()
        invariant
            i <= list@.len(),
            views == text_views(list@),
            content@ == start + lines(keyword@, views.take(i as int)),
        decreases list.len() - i,
    {
        assert(views.take(i + 1).drop_last() =~= views.take(i as int));
        let ghost before = content@;
        content.append(keyword);
        content.append(list[i].as_str());
        content.append("\n");
        i += 1;
        assert(content@ =~= before + (keyword@ + views[i - 1] + "\n"@));
        assert(content@ =~= start + lines(keyword@, views.take(i as int)));
    }
    assert(views.take(i as int) =~= views);
}

/// The content of `/etc/resolv.conf` for a DNS configuration.
pub fn resolv_conf(dns: &DnsConfig) -> (r: String)
    ensures
        r@ == lines("search "@, dns@.searches) + lines("nameserver "@, dns@.nameservers),
{
    let mut content = String::new();
    assert(content@ =~= Seq::<char>::empty());
    push_lines(&mut content, "search ", &dns.searches);
    assert(content@ =~= lines("search "@, dns@.searches));
    push_lines(&mut content, "nameserver ", &dns.nameservers);
    content
}

/// What an IP configuration asks for after a connection landed.
#[derive(Debug, Clone, Copy, PartialEq, Eq, Structural)]
pub struct IpPlan {
    /// Run DHCPv4.
    pub dhcpv4: bool,
    /// Enable IPv6 Router Advertisement (SLAAC).
    pub ipv6_ra: bool,
    /// Apply the static IPv4 addresses and gateway.
    pub static_ipv4: bool,
    /// Apply the static IPv6 addresses and gateway.
    pub static_ipv6: bool,
}

/// Which network configuration to apply after a WiFi or wired 802.1X
/// connection: static IP, DHCP, and/or IPv6 RA depending on the configuration.
pub fn network_plan(ipv4: &Option<IpConfig>, ipv6: &Option<IpConfig>) -> (r: IpPlan)
    ensures
        r.dhcpv4 == (ipv4 matches Some(c) && c.auto),
        r.ipv6_ra == (ipv6 matches Some(c) && c.auto),
        r.static_ipv4 == (ipv4 matches Some(c) && !c.auto),
        r.static_ipv6 == (ipv6 matches Some(c) && !c.auto),
{
    let (auto4, static4) = match ipv4 {
        Some(c) => (c.auto, !c.auto),
        None => (false, false),
    };
    let (auto6, static6) = match ipv6 {
        Some(c) => (c.auto, !c.auto),
        None => (false, false),
    };
    IpPlan { dhcpv4: auto4, ipv6_ra: auto6, static_ipv4: static4, static_ipv6: static6 }
}

/// The DNS configuration to apply: the configured one, else what the DHCP
/// lease gave.
pub fn chosen_dns(configured: &Option<DnsConfig>, lease: Option<DnsConfig>) -> (r: Option<
    DnsConfig,
>)
    ensures
        opt_dns(r) == if configured is Some {
            opt_dns(*configured)
        } else {
            opt_dns(lease)
        },
{
    match configured {
        Some(_) => copy_opt_dns(configured),
        None => lease,
    }
}

/// The DNS configuration of a DHCP lease: its servers, where it names any.
pub fn lease_dns(servers: Option<Vec<String>>) -> (r: Option<DnsConfig>)
    ensures
        match servers {
            Some(s) => r matches Some(d) && d.nameservers == s && d.searches@.len() == 0,
            None => r is None,
        },
{
    match servers {
        Some(nameservers) => Some(DnsConfig { nameservers, searches: Vec::new() }),
        None => None,
    }
}

/// A new default route is less preferred than every existing one that carries
/// a metric, unless a metric is at its maximum already.
pub proof fn law_new_route_is_less_preferred(routes: Seq<DefaultRoute>, i: int)
    requires
        0 <= i < routes.len(),
        routes[i].metric is Some,
        routes[i].metric->0 < u32::MAX,
    ensures
        new_metric(routes) is Some,
        new_metric(routes)->0 > routes[i].metric->0,
{
    lemma_highest(routes, i);
}

/// No metric is above the highest.
proof fn lemma_highest(routes: Seq<DefaultRoute>, i: int)
    requires
        0 <= i < routes.len(),
        routes[i].metric is Some,
    ensures
        highest_metric(routes) is Some,
        routes[i].metric->0 <= highest_metric(routes)->0,
    decreases routes.len(),
{
    if i < routes.len() - 1 {
        lemma_highest(routes.drop_last(), i);
    }
}

} // verus!
