use shuli::config::SaePwe;
use shuli::daemon::config::{
    default_roam_threshold, default_roaming, group_by_interface, resolve_iface_name, DnsConfig,
    EapEntry, IpAddress, IpConfig, SaePweConfig, ShuliConfig, WifiEntry,
};
use shuli::daemon::ip::{
    add_default_route, check_gateway, chosen_dns, default_route, lease_dns, network_plan,
    resolv_conf, DefaultRoute, IpOctets, RouteInfo, RouteStep,
};
use shuli::daemon::run::{
    daemon_result, AppliedSsids, LandedStep, TaskResult, WiredEvent, WiredPort, WiredStep,
};
use shuli::{ErrorKind, WifiError};

fn entry(ssid: &str, interface: Option<&str>) -> WifiEntry {
    WifiEntry {
        ssid: ssid.to_string(),
        password: None,
        hidden: false,
        prefered: false,
        roaming: true,
        roaming_threshold: shuli::config::DEFAULT_ROAM_THRESHOLD_DBM,
        switch_ssid_lower_than_dbm: shuli::config::DEFAULT_SWITCH_SSID_LOWER_THAN_DBM,
        wowlan: false,
        eap: None,
        sae_pwe: SaePweConfig::Auto,
        sae_password_id: None,
        ocv: false,
        ext_key_id: false,
        interface: interface.map(|s| s.to_string()),
        dns: None,
        ipv4: None,
        ipv6: None,
    }
}

#[test]
fn group_absent_and_any_entries_to_the_same_iface() {
    let wifis = vec![
        entry("Home", None),
        entry("Guest", Some("any")),
        entry("Office", Some("wlan1")),
    ];
    let groups = group_by_interface(&wifis, "wlan0");
    assert_eq!(groups.len(), 2);
    assert_eq!(groups[0].0, "wlan0");
    assert_eq!(
        groups[0].1.iter().map(|e| e.ssid.as_str()).collect::<Vec<_>>(),
        ["Home", "Guest"]
    );
    assert_eq!(groups[1].0, "wlan1");
    assert_eq!(groups[1].1[0].ssid, "Office");
}

#[test]
fn group_keeps_wifis_config_order() {
    let wifis = vec![
        entry("A", Some("wlan1")),
        entry("B", None),
        entry("C", Some("wlan1")),
    ];
    let groups = group_by_interface(&wifis, "wlan0");
    assert_eq!(groups.len(), 2);
    assert_eq!(groups[0].0, "wlan1");
    assert_eq!(groups[0].1.iter().map(|e| e.ssid.as_str()).collect::<Vec<_>>(), ["A", "C"]);
    assert_eq!(groups[1].0, "wlan0");
    assert_eq!(groups[1].1[0].ssid, "B");
}

#[test]
fn explicit_only_config_ignores_any_iface() {
    let wifis = vec![entry("X", Some("wlan3"))];
    let groups = group_by_interface(&wifis, "");
    assert_eq!(groups.len(), 1);
    assert_eq!(groups[0].0, "wlan3");
}

/// An entry with the defaults of an absent setting.
fn home() -> WifiEntry {
    WifiEntry {
        password: Some("secret".to_string()),
        roaming: default_roaming(),
        roaming_threshold: default_roam_threshold(),
        ..entry("Home", None)
    }
}

#[test]
fn roaming_defaults_to_enabled_with_default_threshold() {
    let wifis = vec![home()];
    let entry = &wifis[0];
    assert!(entry.roaming);
    assert_eq!(entry.roaming_threshold, -70);

    let wifi = ShuliConfig::wifi_config_for_entries("wlan0", &wifis);
    let network = &wifi.networks[0];
    assert!(network.roaming);
    assert_eq!(network.roaming_threshold, -70);
}

#[test]
fn roaming_false_disables_signal_roam() {
    let wifis = vec![WifiEntry { roaming: false, ..home() }];
    let wifi = ShuliConfig::wifi_config_for_entries("wlan0", &wifis);
    assert!(!wifi.networks[0].roaming);
}

#[test]
fn roaming_threshold_override() {
    let wifis = vec![WifiEntry { roaming_threshold: -80, ..home() }];
    let wifi = ShuliConfig::wifi_config_for_entries("wlan0", &wifis);
    let network = &wifi.networks[0];
    assert!(network.roaming);
    assert_eq!(network.roaming_threshold, -80);
}

#[test]
fn wowlan_defaults_to_disabled_and_maps_true() {
    let wifis = vec![home()];
    assert!(!wifis[0].wowlan);
    let wifi = ShuliConfig::wifi_config_for_entries("wlan0", &wifis);
    assert!(!wifi.networks[0].wowlan);

    let wifis = vec![WifiEntry { wowlan: true, ..home() }];
    let wifi = ShuliConfig::wifi_config_for_entries("wlan0", &wifis);
    assert!(wifi.networks[0].wowlan);
}

#[test]
fn eap_entry_maps_to_eap_config() {
    let eap = EapEntry {
        identity: "user@example.org".to_string(),
        ca_cert: Some("/etc/shuli/ca.pem".to_string()),
        client_cert: Some("/etc/shuli/client.pem".to_string()),
        client_key: Some("/etc/shuli/client.key".to_string()),
        server_name: Some("radius.example.org".to_string()),
    };
    let wifis = vec![WifiEntry { eap: Some(eap), ..entry("Corp", None) }];
    let wifi = ShuliConfig::wifi_config_for_entries("wlan0", &wifis);
    let eap = wifi.networks[0].eap.as_ref().expect("EAP config");
    assert_eq!(eap.identity, "user@example.org");
    assert_eq!(eap.ca_cert.as_deref(), Some("/etc/shuli/ca.pem"));
    assert_eq!(eap.server_name.as_deref(), Some("radius.example.org"));
}

#[test]
fn entries_keep_their_settings() {
    let wifis = vec![WifiEntry {
        sae_pwe: SaePweConfig::Hnp,
        hidden: true,
        ocv: true,
        sae_password_id: Some("id".to_string()),
        ..home()
    }];
    let wifi = ShuliConfig::wifi_config_for_entries("wlan0", &wifis);
    assert_eq!(wifi.iface_name, "wlan0");
    let network = &wifi.networks[0];
    assert_eq!(network.ssid, "Home");
    assert_eq!(network.password.as_deref(), Some("secret"));
    assert_eq!(network.sae_pwe, SaePwe::HnP);
    assert!(network.hidden && network.ocv && !network.ext_key_id);
    assert_eq!(network.sae_password_id.as_deref(), Some("id"));
}

#[test]
fn empty_configuration_is_refused() {
    let empty = ShuliConfig { version: 1, wifis: vec![], ethernets: vec![] };
    let e = empty.check().unwrap_err();
    assert_eq!(e.kind, ErrorKind::InvalidConfig);
    assert_eq!(e.msg, "no wifis or ethernets in config");
    let one = ShuliConfig { version: 1, wifis: vec![entry("A", Some("wlan0"))], ethernets: vec![] };
    assert!(one.check().is_ok());
    assert!(!one.needs_any());
    let any = ShuliConfig { version: 1, wifis: vec![entry("A", Some("any"))], ethernets: vec![] };
    assert!(any.needs_any());
}

#[test]
fn interface_names_are_resolved() {
    let found = vec!["wlan7".to_string(), "wlan8".to_string()];
    let named = "wlan1".to_string();
    let any = "any".to_string();
    assert_eq!(resolve_iface_name(Some(&named), &found).unwrap(), "wlan1");
    assert_eq!(resolve_iface_name(Some(&any), &found).unwrap(), "wlan7");
    assert_eq!(resolve_iface_name(None, &found).unwrap(), "wlan7");
    let e = resolve_iface_name(None, &vec![]).unwrap_err();
    assert_eq!(e.kind, ErrorKind::InterfaceNotFound);
    assert_eq!(e.msg, "no wifi interface found");
}

fn route(gateway: [u8; 4], metric: Option<u32>, oif: u32) -> DefaultRoute {
    DefaultRoute { gateway: IpOctets::V4(gateway), metric, oif }
}

#[test]
fn default_route_metrics() {
    let gw = IpOctets::V4([10, 0, 0, 1]);
    assert_eq!(add_default_route(&[], 3, &gw), RouteStep::Install(None));
    let none = [route([10, 0, 0, 2], None, 2)];
    assert_eq!(add_default_route(&none, 3, &gw), RouteStep::Install(Some(500)));
    let some = [
        route([10, 0, 0, 2], Some(100), 2),
        route([10, 0, 0, 3], Some(600), 2),
        route([10, 0, 0, 4], None, 2),
    ];
    assert_eq!(add_default_route(&some, 3, &gw), RouteStep::Install(Some(601)));
    let max = [route([10, 0, 0, 2], Some(u32::MAX), 2)];
    assert_eq!(add_default_route(&max, 3, &gw), RouteStep::Install(Some(u32::MAX)));
    let same = [route([10, 0, 0, 1], Some(1), 3)];
    assert_eq!(add_default_route(&same, 3, &gw), RouteStep::Installed);
    // The same gateway on another interface is another route.
    assert_eq!(add_default_route(&same, 4, &gw), RouteStep::Install(Some(2)));
}

#[test]
fn only_main_table_default_routes_count() {
    let good = RouteInfo {
        table: None,
        destination_prefix_length: 0,
        unicast: true,
        gateway: Some(IpOctets::V6([1u8; 16])),
        metric: Some(7),
        oif: None,
    };
    let d = default_route(&good).unwrap();
    assert_eq!((d.metric, d.oif), (Some(7), 0));
    assert!(default_route(&RouteInfo { table: Some(254), ..good }).is_some());
    assert!(default_route(&RouteInfo { table: Some(100), ..good }).is_none());
    assert!(default_route(&RouteInfo { destination_prefix_length: 24, ..good }).is_none());
    assert!(default_route(&RouteInfo { unicast: false, ..good }).is_none());
    assert!(default_route(&RouteInfo { gateway: None, ..good }).is_none());
}

#[test]
fn gateways_match_their_family() {
    let v4 = IpOctets::V4([10, 0, 0, 1]);
    let v6 = IpOctets::V6([0xfe; 16]);
    assert!(check_gateway(&v4, false, "10.0.0.1").is_ok());
    assert!(check_gateway(&v6, true, "fe::").is_ok());
    let e = check_gateway(&v4, true, "10.0.0.1").unwrap_err();
    assert_eq!(e.kind, ErrorKind::InvalidConfig);
    assert_eq!(e.msg, "IPv6 gateway must be v6: 10.0.0.1");
    assert_eq!(check_gateway(&v6, false, "fe::").unwrap_err().msg, "IPv4 gateway must be v4: fe::");
}

#[test]
fn resolv_conf_lists_searches_then_servers() {
    let dns = DnsConfig {
        nameservers: vec!["1.1.1.1".to_string(), "9.9.9.9".to_string()],
        searches: vec!["example.org".to_string()],
    };
    assert_eq!(
        resolv_conf(&dns),
        "search example.org\nnameserver 1.1.1.1\nnameserver 9.9.9.9\n"
    );
}

#[test]
fn network_plan_and_dns() {
    let auto = Some(IpConfig { auto: true, address: vec![], gateway: None });
    let fixed = Some(IpConfig {
        auto: false,
        address: vec![IpAddress { ip: "10.0.0.2".to_string(), prefix_length: 24 }],
        gateway: None,
    });
    let plan = network_plan(&auto, &fixed);
    assert!(plan.dhcpv4 && !plan.static_ipv4 && !plan.ipv6_ra && plan.static_ipv6);
    let plan = network_plan(&None, &None);
    assert!(!plan.dhcpv4 && !plan.static_ipv4 && !plan.ipv6_ra && !plan.static_ipv6);
    let lease = lease_dns(Some(vec!["1.1.1.1".to_string()]));
    let own = Some(DnsConfig { nameservers: vec!["8.8.8.8".to_string()], searches: vec![] });
    assert_eq!(chosen_dns(&own, lease.clone()).unwrap().nameservers, vec!["8.8.8.8"]);
    assert_eq!(chosen_dns(&None, lease).unwrap().nameservers, vec!["1.1.1.1"]);
    assert!(lease_dns(None).is_none());
}

#[test]
fn ip_configuration_is_applied_once_per_network() {
    let groups = group_by_interface(&[entry("A", None), entry("B", None)], "wlan0");
    let mut applied = AppliedSsids::new();
    let wlan0 = "wlan0".to_string();
    let (a, b, c) = ("A".to_string(), "B".to_string(), "C".to_string());
    let ssid_of = |s: LandedStep| match s {
        LandedStep::Apply(e) => e.ssid,
        LandedStep::Applied => "applied".to_string(),
        LandedStep::NoSsid => "no ssid".to_string(),
        LandedStep::NoEntry => "no entry".to_string(),
    };
    assert_eq!(ssid_of(applied.connection_landed(&groups, &wlan0, None)), "no ssid");
    assert_eq!(ssid_of(applied.connection_landed(&groups, &wlan0, Some(&a))), "A");
    assert_eq!(ssid_of(applied.connection_landed(&groups, &wlan0, Some(&a))), "applied");
    assert_eq!(ssid_of(applied.connection_landed(&groups, &wlan0, Some(&b))), "B");
    assert_eq!(ssid_of(applied.connection_landed(&groups, &wlan0, Some(&a))), "A");
    assert_eq!(ssid_of(applied.connection_landed(&groups, &wlan0, Some(&c))), "no entry");
    let wlan9 = "wlan9".to_string();
    assert_eq!(ssid_of(applied.connection_landed(&groups, &wlan9, Some(&a))), "no entry");
}

#[test]
fn daemon_ends_by_its_tasks() {
    let failed = |m: &str| TaskResult::Failed(WifiError::new(ErrorKind::Io, m));
    assert!(daemon_result(vec![failed("x"), TaskResult::Finished(true)]).is_ok());
    let e = daemon_result(vec![TaskResult::Panicked, failed("first"), failed("second")]);
    assert_eq!(e.unwrap_err().msg, "first");
    let e = daemon_result(vec![TaskResult::Finished(false)]).unwrap_err();
    assert_eq!(e.kind, ErrorKind::ConnectFailed);
    assert_eq!(e.msg, "shutdown before connection established");
}

#[test]
fn wired_port_retries_until_authorized() {
    let mut port = WiredPort::new();
    assert_eq!(port.handle(WiredEvent::InitFailed), WiredStep::Retry(10));
    assert_eq!(port.handle(WiredEvent::Progress), WiredStep::Wait);
    assert_eq!(port.handle(WiredEvent::Failed), WiredStep::Retry(10));
    assert_eq!(port.handle(WiredEvent::Shutdown), WiredStep::End(false));
    assert_eq!(port.handle(WiredEvent::Connected), WiredStep::Hold);
    assert_eq!(port.handle(WiredEvent::Shutdown), WiredStep::End(true));
}
