use shuli::client::associate::AssociateRequest;
use shuli::client::authenticate::{AuthRequest, AuthStep, EapSetup};
use shuli::client::control::{ArmStep, UpdateStep};
use shuli::client::events::{
    ap_disconnect_event, authentication_status, EventStep, WifiEvent,
};
use shuli::client::handshake::{KeyStep, PortStep};
use shuli::client::policy::{
    desired_wowlan_triggers, fatal_disconnect_error, fmt_transition_disable,
    is_fatal_disconnect_reason, wowlan_wakeup_requires_reconnect, WowlanTrigger,
};
use shuli::client::run::{
    channel_closed, ConnectedWait, RunStep, ScanOutcome, ScanStep, SchedResultStep, SchedStep,
};
use shuli::client::sched_scan::{start_refused, StartOutcome};
use shuli::client::select::{
    bss_security, describe_bss, rsne_akms, security_of_akm, select_bss, Candidate,
};
use shuli::client::state::{FtContext, WifiIface, WifiState};
use shuli::client::wifi_client::{check_configs, WifiClient};
use shuli::client::wiphy::{
    interface_identity, interface_not_found, next_sched_scan_ssids, sched_scan_caps,
    MAX_SCHED_SCAN_SSIDS,
};
use shuli::config::{EapConfig, NetworkConfig, NetworkConfigHints, WifiConfig};
use shuli::crypto::ft::{derive_pmk_r0, derive_pmk_r1, PmkR1};
use shuli::crypto::kdf::pbkdf2_pmk;
use shuli::crypto::handshake4::{seal, FourWayState, MicAlg};
use shuli::crypto::owe::OweAuth;
use shuli::crypto::sae::SaeAuth;
use shuli::ieee80211::auth::build_sae_auth_frame;
use shuli::ieee80211::eapol;
use shuli::ieee80211::elements;
use shuli::ieee80211::elements::CipherSuite;
use shuli::scan::{BssInfo, MdieInfo, SecurityType};
use shuli::wpa3::handshake4::aes_key_wrap;
use shuli::{ErrorKind, WifiError};
use wl_nl80211::{Ieee80211ReasonCode, Ieee80211StatusCode};

#[test]
fn client_fatal_disconnect_reasons_are_2_and_23() {
    assert_eq!(Ieee80211ReasonCode::from(2), Ieee80211ReasonCode::PrevAuthNotValid);
    assert!(is_fatal_disconnect_reason(Some(2)));
    assert_eq!(Ieee80211ReasonCode::from(23), Ieee80211ReasonCode::Ieee8021xFailed);
    assert!(is_fatal_disconnect_reason(Some(23)));
}

#[test]
fn client_fatal_disconnect_error_reports_wrong_password() {
    let err = fatal_disconnect_error(Some(2));
    assert_eq!(err.kind, ErrorKind::WrongPassword);
    assert!(err.to_text().contains("password is wrong"), "unexpected error: {}", err.to_text());

    let err = fatal_disconnect_error(Some(23));
    assert_eq!(err.kind, ErrorKind::AuthFailed);
}

#[test]
fn client_transient_disconnect_reasons() {
    for (code, reason) in [
        (1, Ieee80211ReasonCode::Unspecified),
        (3, Ieee80211ReasonCode::DeauthLeaving),
        (4, Ieee80211ReasonCode::DisassocDueToInactivity),
        (14, Ieee80211ReasonCode::MicFailure),
        (16, Ieee80211ReasonCode::GroupKeyHandshakeTimeout),
    ] {
        assert_eq!(Ieee80211ReasonCode::from(code), reason);
        assert!(!is_fatal_disconnect_reason(Some(code)), "{reason:?} must be transient");
    }
    assert!(!is_fatal_disconnect_reason(None));
}

#[test]
fn client_wowlan_desired_triggers_filtered_by_support() {
    let all = vec![WowlanTrigger::Disconnect, WowlanTrigger::GtkRekeyFailure];
    assert_eq!(desired_wowlan_triggers(&all), all);

    let rekey_only = vec![WowlanTrigger::GtkRekeyFailure];
    assert_eq!(desired_wowlan_triggers(&rekey_only), vec![WowlanTrigger::GtkRekeyFailure]);

    let none = vec![WowlanTrigger::MagicPkt];
    assert!(desired_wowlan_triggers(&none).is_empty());
}

#[test]
fn client_wowlan_wakeup_reconnect_reasons() {
    assert!(wowlan_wakeup_requires_reconnect(&[WowlanTrigger::GtkRekeyFailure]));
    assert!(wowlan_wakeup_requires_reconnect(&[WowlanTrigger::Disconnect]));
    assert!(!wowlan_wakeup_requires_reconnect(&[WowlanTrigger::MagicPkt]));
    assert!(!wowlan_wakeup_requires_reconnect(&[WowlanTrigger::Any]));
    assert!(!wowlan_wakeup_requires_reconnect(&[]));
}

#[test]
fn client_transition_disable_bitmap_names() {
    let s = fmt_transition_disable(0x01);
    assert!(s.contains("WPA3-Personal"));
    assert!(!s.contains("Enhanced Open"));
    let s = fmt_transition_disable(0x08);
    assert!(s.contains("Enhanced Open"));
    assert!(!s.contains("WPA3-Personal"));
    let s = fmt_transition_disable(0x0F);
    assert_eq!(s, "WPA3-Personal, SAE-PK, WPA3-Enterprise, Enhanced Open");
    assert_eq!(fmt_transition_disable(0), "none");
}

#[test]
fn client_sched_scan_chunk_reserves_wildcard_and_rotates() {
    let hidden: Vec<String> = ["A", "B", "C", "D"].iter().map(|s| s.to_string()).collect();
    let mut cursor = 0;
    let (round, more) = next_sched_scan_ssids(&hidden, true, &mut cursor, 4);
    assert_eq!(round, vec!["", "A", "B", "C"]);
    assert!(more);
    assert_eq!(cursor, 3);

    let (round, more) = next_sched_scan_ssids(&hidden, true, &mut cursor, 4);
    assert_eq!(round, vec!["", "D"]);
    assert!(!more);
    assert_eq!(cursor, 0);
}

#[test]
fn client_sched_scan_chunk_fits_all_hidden_ssids() {
    let hidden: Vec<String> = ["A", "B"].iter().map(|s| s.to_string()).collect();
    let mut cursor = 0;
    let (round, more) = next_sched_scan_ssids(&hidden, false, &mut cursor, 4);
    assert_eq!(round, vec!["A", "B"]);
    assert!(!more);
    assert_eq!(cursor, 0);
}

#[test]
fn client_sched_scan_chunk_caps_at_wpa_supplicant_max() {
    let hidden: Vec<String> = (0..20).map(|i| format!("S{i:02}")).collect();
    let mut cursor = 0;
    let (round, more) = next_sched_scan_ssids(&hidden, true, &mut cursor, 255);
    assert_eq!(round.len(), MAX_SCHED_SCAN_SSIDS);
    assert_eq!(round[0], "");
    assert_eq!(round[1], "S00");
    assert_eq!(round[15], "S14");
    assert!(more);
    assert_eq!(cursor, 15);

    let (round, more) = next_sched_scan_ssids(&hidden, true, &mut cursor, 255);
    assert_eq!(round, vec!["", "S15", "S16", "S17", "S18", "S19"]);
    assert!(!more);
    assert_eq!(cursor, 0);
}

#[test]
fn mod_fatal_disconnect_reasons_are_2_and_23() {
    assert_eq!(Ieee80211ReasonCode::from(2), Ieee80211ReasonCode::PrevAuthNotValid);
    assert!(is_fatal_disconnect_reason(Some(2)));
    assert_eq!(Ieee80211ReasonCode::from(23), Ieee80211ReasonCode::Ieee8021xFailed);
    assert!(is_fatal_disconnect_reason(Some(23)));
}

#[test]
fn mod_fatal_disconnect_error_reports_wrong_password() {
    let err = fatal_disconnect_error(Some(2));
    assert_eq!(err.kind, ErrorKind::WrongPassword);
    assert!(err.to_text().contains("password is wrong"), "unexpected error: {}", err.to_text());

    let err = fatal_disconnect_error(Some(23));
    assert_eq!(err.kind, ErrorKind::AuthFailed);
}

#[test]
fn mod_transient_disconnect_reasons() {
    for (code, reason) in [
        (1, Ieee80211ReasonCode::Unspecified),
        (3, Ieee80211ReasonCode::DeauthLeaving),
        (4, Ieee80211ReasonCode::DisassocDueToInactivity),
        (14, Ieee80211ReasonCode::MicFailure),
        (16, Ieee80211ReasonCode::GroupKeyHandshakeTimeout),
    ] {
        assert_eq!(Ieee80211ReasonCode::from(code), reason);
        assert!(!is_fatal_disconnect_reason(Some(code)), "{reason:?} must be transient");
    }
    assert!(!is_fatal_disconnect_reason(None));
}

#[test]
fn mod_wowlan_desired_triggers_filtered_by_support() {
    let all = vec![WowlanTrigger::Disconnect, WowlanTrigger::GtkRekeyFailure];
    assert_eq!(desired_wowlan_triggers(&all), all);

    let rekey_only = vec![WowlanTrigger::GtkRekeyFailure];
    assert_eq!(desired_wowlan_triggers(&rekey_only), vec![WowlanTrigger::GtkRekeyFailure]);

    let none = vec![WowlanTrigger::MagicPkt];
    assert!(desired_wowlan_triggers(&none).is_empty());
}

#[test]
fn mod_wowlan_wakeup_reconnect_reasons() {
    assert!(wowlan_wakeup_requires_reconnect(&[WowlanTrigger::GtkRekeyFailure]));
    assert!(wowlan_wakeup_requires_reconnect(&[WowlanTrigger::Disconnect]));
    assert!(!wowlan_wakeup_requires_reconnect(&[WowlanTrigger::MagicPkt]));
    assert!(!wowlan_wakeup_requires_reconnect(&[WowlanTrigger::Any]));
    assert!(!wowlan_wakeup_requires_reconnect(&[]));
}

#[test]
fn mod_transition_disable_bitmap_names() {
    let s = fmt_transition_disable(0x01);
    assert!(s.contains("WPA3-Personal"));
    assert!(!s.contains("Enhanced Open"));
    let s = fmt_transition_disable(0x08);
    assert!(s.contains("Enhanced Open"));
    assert!(!s.contains("WPA3-Personal"));
    let s = fmt_transition_disable(0x0F);
    assert_eq!(s, "WPA3-Personal, SAE-PK, WPA3-Enterprise, Enhanced Open");
    assert_eq!(fmt_transition_disable(0), "none");
}

#[test]
fn mod_sched_scan_chunk_reserves_wildcard_and_rotates() {
    let hidden: Vec<String> = ["A", "B", "C", "D"].iter().map(|s| s.to_string()).collect();
    let mut cursor = 0;
    let (round, more) = next_sched_scan_ssids(&hidden, true, &mut cursor, 4);
    assert_eq!(round, vec!["", "A", "B", "C"]);
    assert!(more);
    assert_eq!(cursor, 3);

    let (round, more) = next_sched_scan_ssids(&hidden, true, &mut cursor, 4);
    assert_eq!(round, vec!["", "D"]);
    assert!(!more);
    assert_eq!(cursor, 0);
}

#[test]
fn mod_sched_scan_chunk_fits_all_hidden_ssids() {
    let hidden: Vec<String> = ["A", "B"].iter().map(|s| s.to_string()).collect();
    let mut cursor = 0;
    let (round, more) = next_sched_scan_ssids(&hidden, false, &mut cursor, 4);
    assert_eq!(round, vec!["A", "B"]);
    assert!(!more);
    assert_eq!(cursor, 0);
}

#[test]
fn mod_sched_scan_chunk_caps_at_wpa_supplicant_max() {
    let hidden: Vec<String> = (0..20).map(|i| format!("S{i:02}")).collect();
    let mut cursor = 0;
    let (round, more) = next_sched_scan_ssids(&hidden, true, &mut cursor, 255);
    assert_eq!(round.len(), MAX_SCHED_SCAN_SSIDS);
    assert_eq!(round[0], "");
    assert_eq!(round[1], "S00");
    assert_eq!(round[15], "S14");
    assert!(more);
    assert_eq!(cursor, 15);

    let (round, more) = next_sched_scan_ssids(&hidden, true, &mut cursor, 255);
    assert_eq!(round, vec!["", "S15", "S16", "S17", "S18", "S19"]);
    assert!(!more);
    assert_eq!(cursor, 0);
}

const STA: [u8; 6] = [2, 0, 0, 0, 0, 1];
const AP: [u8; 6] = [2, 0, 0, 0, 1, 0];

fn network(ssid: &str, password: &str) -> NetworkConfig {
    let mut n = NetworkConfig::new(ssid);
    n.set_password(password);
    n
}

fn iface_with(networks: Vec<NetworkConfig>) -> WifiIface {
    let mut config = WifiConfig::new("wlan0");
    config.networks = networks;
    WifiIface::init(
        3,
        STA,
        config,
        Some(sched_scan_caps(4, 8)),
        4,
        Some(vec![WowlanTrigger::Disconnect, WowlanTrigger::MagicPkt]),
    )
    .unwrap()
}

/// An interface that selected a BSS of a security mode.
fn selected(security: SecurityType) -> WifiIface {
    let mut iface = iface_with(vec![network("net", "12345678")]);
    iface.link.bss_info = bss(security);
    iface.state = WifiState::Authenticating;
    iface
}

fn bss(security: SecurityType) -> BssInfo {
    let mut b = BssInfo::none();
    b.bssid = AP;
    b.freq_mhz = 2437;
    b.security = security;
    b.ap_rsnxe = vec![244, 1, 0x20];
    b
}

fn associate_of(step: EventStep) -> AssociateRequest {
    match step {
        EventStep::Associate(req) => req,
        _ => panic!("no association request"),
    }
}

fn sent_of(step: EventStep) -> Vec<u8> {
    match step {
        EventStep::Port(PortStep::SendFrame(f)) => f,
        _ => panic!("no frame to send"),
    }
}

fn message_1(counter: u64, version: u16) -> Vec<u8> {
    let info = eapol::KEY_INFO_PAIRWISE | eapol::KEY_INFO_ACK | version;
    eapol::build_eapol_key_pdu(
        info, 16, counter, &[5u8; 32], &[0u8; 16], &[0u8; 8], &[0u8; 8], &[0u8; 16], &[],
    )
}

/// What the AP knows after Message 2.
fn ap_side(iface: &WifiIface, msg2: &[u8]) -> FourWayState {
    let parsed = eapol::parse_eapol_key_frame(msg2).unwrap();
    let fw = iface.link.fourway.as_ref().unwrap();
    let mut ap = FourWayState::with_snonce(
        &fw.pmk, fw.mic_alg, STA, AP, vec![], vec![], vec![], fw.ft_pmk_r1, parsed.key_nonce,
    );
    ap.process_message_1_with(&[5u8; 32], 1, fw.desc_version, parsed.key_nonce).unwrap();
    ap
}

/// Message 3 or a group key message of the AP, with a GTK of index 1.
fn keyed(ap: &FourWayState, counter: u64, info: u16, gtk: u8) -> Vec<u8> {
    let mut data = vec![0xdd, 22, 0x00, 0x0f, 0xac, 0x01, 0x01, 0x00];
    data.extend_from_slice(&[gtk; 16]);
    let wrapped = aes_key_wrap(&ap.kek().unwrap(), &data).unwrap();
    let info = info | eapol::KEY_INFO_MIC | eapol::KEY_INFO_SECURE | eapol::KEY_INFO_ACK
        | eapol::KEY_INFO_ENCRYPTED_DATA | ap.desc_version;
    let pdu = eapol::build_eapol_key_pdu(
        info, 16, counter, &[5u8; 32], &[0u8; 16], &[0u8; 8], &[0u8; 8], &[0u8; 16], &wrapped,
    );
    seal(ap.mic_alg, &ap.kck().unwrap(), pdu).unwrap()
}

fn message_3(ap: &FourWayState, counter: u64) -> Vec<u8> {
    keyed(ap, counter, eapol::KEY_INFO_PAIRWISE | eapol::KEY_INFO_INSTALL, 0x77)
}

/// Message 3 of the AP with unencrypted key data.
fn message_3_with(ap: &FourWayState, counter: u64, key_data: &[u8]) -> Vec<u8> {
    let info = eapol::KEY_INFO_MIC | eapol::KEY_INFO_SECURE | eapol::KEY_INFO_ACK
        | eapol::KEY_INFO_PAIRWISE | eapol::KEY_INFO_INSTALL | ap.desc_version;
    let pdu = eapol::build_eapol_key_pdu(
        info, 16, counter, &[5u8; 32], &[0u8; 16], &[0u8; 8], &[0u8; 8], &[0u8; 16], key_data,
    );
    seal(ap.mic_alg, &ap.kck().unwrap(), pdu).unwrap()
}

/// Run the 4-way handshake of an associated interface to its end.
fn handshake(iface: &mut WifiIface, version: u16) -> FourWayState {
    let msg2 = sent_of(iface.handle_event(&WifiEvent::ControlPortFrame(message_1(1, version))));
    let ap = ap_side(iface, &msg2);
    match iface.handle_event(&WifiEvent::ControlPortFrame(message_3(&ap, 2))) {
        EventStep::Port(PortStep::InstallKeys { steps, transition_disable }) => {
            assert_eq!(transition_disable, None);
            assert_eq!(steps.len(), 3);
            assert!(matches!(&steps[0], KeyStep::SendFrame(_)));
            assert!(matches!(&steps[1], KeyStep::InstallPairwise { key_id: None, .. }));
            match &steps[2] {
                KeyStep::InstallGroup { index, key } => {
                    assert_eq!((*index, key.clone()), (1, vec![0x77u8; 16]));
                },
                other => panic!("{other:?}"),
            }
            assert!(steps.iter().all(|s| s.is_fatal()));
        },
        _ => panic!("handshake did not complete"),
    }
    ap
}

#[test]
fn psk_connection_from_authentication_to_rekey() {
    let mut iface = selected(SecurityType::Wpa2Psk);
    assert_eq!(iface.begin_auth(EapSetup::Missing, 0).unwrap(), AuthRequest::OpenSystem);
    let ok = WifiEvent::Authenticated { status: 0, frame: None };
    let req = associate_of(iface.handle_event(&ok));
    assert_eq!(req.ie, elements::wpa2_psk_ie_cipher(CipherSuite::BipCmac128));
    assert!(req.control_port && !req.mfp && !req.cached);
    assert!(matches!(
        iface.handle_event(&WifiEvent::Associated { status: 0, ies: None }),
        EventStep::Nothing
    ));
    let ap = handshake(&mut iface, 2);
    // Message 2 repeated the elements of the association request.
    assert_eq!(iface.link.fourway.as_ref().unwrap().rsne, req.ie);
    let entry = iface.cache_pmksa(100).unwrap();
    assert_eq!(entry.mic_alg, MicAlg::HmacSha1);
    let (kek, kck, counter) = iface.rekey_offload().unwrap();
    assert_eq!((Some(kek), Some(kck)), (ap.kek(), ap.kck()));
    assert_eq!(counter, [0, 0, 0, 0, 0, 0, 0, 2]);
    iface.handshake_done(false);
    assert_eq!(iface.state, WifiState::ConnectedWithoutOffloadRekey);
    match iface.handle_event(&WifiEvent::ControlPortFrame(keyed(&ap, 3, 0, 0x88))) {
        EventStep::Port(PortStep::Rekey { reply, index, key }) => {
            assert_eq!((index, key), (1, vec![0x88u8; 16]));
            assert!(eapol::parse_eapol_key_frame(&reply).unwrap().has_mic());
        },
        _ => panic!("no rekey"),
    }
    // A replayed group message changes nothing.
    assert!(matches!(
        iface.handle_event(&WifiEvent::ControlPortFrame(keyed(&ap, 3, 0, 0x99))),
        EventStep::Port(PortStep::Nothing)
    ));
    assert_eq!(iface.link.fourway.as_ref().unwrap().gtk(), Some(&[0x88u8; 16][..]));
}

#[test]
fn cached_pmksa_skips_the_full_authentication() {
    let mut iface = selected(SecurityType::Wpa2Psk);
    iface.begin_auth(EapSetup::Missing, 0).unwrap();
    handshake(&mut iface, 2);
    let entry = iface.cache_pmksa(100).unwrap();
    // Another attempt with the same BSS finds the entry.
    assert_eq!(iface.begin_auth(EapSetup::Missing, 200).unwrap(), AuthRequest::OpenSystem);
    assert!(iface.link.pmksa_in_use.is_some() && iface.auth.psk_pmk.is_none());
    let ok = WifiEvent::Authenticated { status: 0, frame: None };
    let req = associate_of(iface.handle_event(&ok));
    assert!(req.cached);
    assert_eq!(elements::rsne_first_pmkid(&req.ie[2..]), Some(entry.pmkid));
    // The AP lost it: full authentication follows, and the entry is gone.
    match iface.handle_event(&WifiEvent::Associated { status: 53, ies: None }) {
        EventStep::FullAuth(Some(dropped)) => assert_eq!(dropped.pmkid, entry.pmkid),
        _ => panic!("no fallback"),
    }
    iface.begin_auth(EapSetup::Missing, 300).unwrap();
    assert!(iface.link.pmksa_in_use.is_none());
    // An entry also runs out.
    handshake(&mut iface, 2);
    iface.cache_pmksa(300).unwrap();
    iface.begin_auth(EapSetup::Missing, 300 + 43200).unwrap();
    assert!(iface.link.pmksa_in_use.is_none());
}

#[test]
fn wrong_psk_shows_in_message_3() {
    let mut iface = selected(SecurityType::Wpa2Psk);
    iface.begin_auth(EapSetup::Missing, 0).unwrap();
    let msg2 = sent_of(iface.handle_event(&WifiEvent::ControlPortFrame(message_1(1, 2))));
    let mut msg3 = message_3(&ap_side(&iface, &msg2), 2);
    msg3[81] ^= 1;
    assert!(matches!(
        iface.handle_event(&WifiEvent::ControlPortFrame(msg3)),
        EventStep::Port(PortStep::Nothing)
    ));
    assert_eq!(iface.state, WifiState::FailedAuthentication);
    let e = iface.last_error.as_ref().unwrap();
    assert_eq!(e.kind, ErrorKind::WrongPassword);
    assert_eq!(e.msg, "wrong password for SSID 'net'");
}

#[test]
fn psk_handshake_that_stalls_means_a_wrong_password() {
    let mut iface = selected(SecurityType::Wpa2Psk);
    iface.begin_auth(EapSetup::Missing, 0).unwrap();
    assert_eq!(iface.auth_wait_secs(), 15);
    sent_of(iface.handle_event(&WifiEvent::ControlPortFrame(message_1(1, 2))));
    assert_eq!(iface.auth_timed_out(), AuthStep::Nothing);
    assert_eq!(iface.last_error.as_ref().unwrap().kind, ErrorKind::WrongPassword);
}

#[test]
fn sae_connection() {
    let mut iface = selected(SecurityType::Sae);
    let commit = match iface.begin_auth(EapSetup::Missing, 0).unwrap() {
        AuthRequest::Sae(data) => data,
        other => panic!("{other:?}"),
    };
    iface.auth_request_sent(AuthRequest::Sae(commit.clone()));
    assert_eq!(iface.auth_wait_secs(), 2);
    // A lost commit is sent again.
    assert_eq!(iface.auth_timed_out(), AuthStep::SendCommit(commit.clone()));
    let mut ap = SaeAuth::new("12345678", "net", AP, STA, true, false).unwrap();
    let from_ap = ap.build_init_auth_msg().unwrap();
    let confirm_ap = ap.process_commit(&commit[6..38], &commit[38..102]).unwrap();
    let frame = build_sae_auth_frame(AP, STA, 1, 126, &from_ap[4..]);
    // A frame of another sender is ignored.
    let stray = build_sae_auth_frame([9u8; 6], STA, 1, 126, &from_ap[4..]);
    assert!(matches!(
        iface.handle_event(&WifiEvent::Frame(stray)),
        EventStep::Auth(AuthStep::Nothing)
    ));
    let authenticated = WifiEvent::Authenticated { status: 126, frame: Some(frame) };
    let confirm = match iface.handle_event(&authenticated) {
        EventStep::Auth(AuthStep::SendConfirm(c)) => c,
        _ => panic!("no confirm"),
    };
    assert_eq!(&confirm[..6], &[2, 0, 0, 0, 1, 0]);
    ap.process_confirm(&confirm[4..]).unwrap();
    iface.confirm_sent(true);
    let mut body = vec![1, 0];
    body.extend_from_slice(&confirm_ap);
    let frame = build_sae_auth_frame(AP, STA, 2, 0, &body);
    let req = match iface.handle_event(&WifiEvent::Frame(frame)) {
        EventStep::Auth(AuthStep::Associate(req)) => req,
        _ => panic!("no association"),
    };
    assert_eq!(req.ie, elements::sae_ie_cipher(CipherSuite::BipCmac128));
    assert!(req.mfp);
    handshake(&mut iface, 0);
    assert_eq!(iface.link.fourway.as_ref().unwrap().pmk, ap.pmk().unwrap());
    assert_eq!(iface.link.fourway.as_ref().unwrap().rsne, req.ie);
    assert_eq!(iface.cache_pmksa(0).unwrap().pmkid, ap.pmkid().unwrap());
}

#[test]
fn sae_gives_up_after_three_retransmissions() {
    let mut iface = selected(SecurityType::Sae);
    iface.link.network.sae_pwe = shuli::config::SaePwe::H2E;
    let request = iface.begin_auth(EapSetup::Missing, 0).unwrap();
    iface.auth_request_sent(request);
    for _ in 0..3 {
        assert!(matches!(iface.auth_timed_out(), AuthStep::SendCommit(_)));
    }
    assert_eq!(iface.auth_wait_secs(), 15);
    assert_eq!(iface.auth_timed_out(), AuthStep::Nothing);
    assert_eq!(iface.state, WifiState::Failed);
}

#[test]
fn sae_falls_back_to_hunting_and_pecking_once() {
    let mut iface = selected(SecurityType::Sae);
    let request = iface.begin_auth(EapSetup::Missing, 0).unwrap();
    iface.auth_request_sent(request);
    let reject = build_sae_auth_frame(AP, STA, 1, 1, &[]);
    let commit = match iface.handle_event(&WifiEvent::Frame(reject.clone())) {
        EventStep::Auth(AuthStep::SendCommit(c)) => c,
        _ => panic!("no fallback"),
    };
    assert_eq!(&commit[..4], &[1, 0, 0, 0]);
    iface.commit_sent(commit, true);
    assert!(matches!(
        iface.handle_event(&WifiEvent::Frame(reject)),
        EventStep::Auth(AuthStep::Nothing)
    ));
    assert_eq!(iface.state, WifiState::FailedAuthentication);
}

#[test]
fn refused_sae_without_a_frame() {
    let mut iface = selected(SecurityType::Sae);
    iface.begin_auth(EapSetup::Missing, 0).unwrap();
    iface.handle_event(&WifiEvent::Authenticated { status: 15, frame: None });
    assert_eq!(iface.last_error.as_ref().unwrap().kind, ErrorKind::WrongPassword);
    iface.handle_event(&WifiEvent::Authenticated { status: 1, frame: None });
    let e = iface.last_error.as_ref().unwrap();
    assert_eq!(e.kind, ErrorKind::AuthFailed);
    assert_eq!(
        e.msg,
        format!("SAE authentication failed: status={}", Ieee80211StatusCode::UnspecifiedFailure)
    );
    assert_eq!(e.msg, "SAE authentication failed: status=unspecified_failure");
}

#[test]
fn open_connection() {
    let mut iface = iface_with(vec![NetworkConfig::new("cafe")]);
    iface.link.bss_info = bss(SecurityType::Open);
    iface.state = WifiState::Authenticating;
    iface.begin_auth(EapSetup::Missing, 0).unwrap();
    let ok = WifiEvent::Authenticated { status: 0, frame: None };
    let req = associate_of(iface.handle_event(&ok));
    assert!(req.ie.is_empty() && !req.control_port);
    assert!(matches!(
        iface.handle_event(&WifiEvent::Associated { status: 0, ies: None }),
        EventStep::Connected
    ));
    assert_eq!(iface.state, WifiState::ConnectedWithoutOffloadRekey);
    iface.state = WifiState::Authenticating;
    iface.handle_event(&WifiEvent::Authenticated { status: 1, frame: None });
    assert_eq!(iface.state, WifiState::Failed);
}

#[test]
fn owe_connection() {
    let mut iface = iface_with(vec![NetworkConfig::new("owe")]);
    iface.link.bss_info = bss(SecurityType::Owe);
    iface.begin_auth(EapSetup::Missing, 0).unwrap();
    let ok = WifiEvent::Authenticated { status: 0, frame: None };
    let req = associate_of(iface.handle_event(&ok));
    assert!(req.mfp && req.control_port);
    let rsne = elements::owe_ie_cipher(CipherSuite::BipCmac128);
    assert!(req.ie.starts_with(&rsne));
    let mut ap = OweAuth::with_secret([7u8; 32]);
    ap.process_ap_dh_element(&req.ie[rsne.len() + 3..]).unwrap();
    let ies = Some(ap.build_dh_element());
    iface.handle_event(&WifiEvent::Associated { status: 0, ies });
    assert!(iface.auth.owe.as_ref().unwrap().pmk().is_some());
    let msg2 = sent_of(iface.handle_event(&WifiEvent::ControlPortFrame(message_1(1, 0))));
    assert_eq!(eapol::parse_eapol_key_frame(&msg2).unwrap().key_data, rsne);
    // Without the AP's element the association is useless.
    let mut other = iface_with(vec![NetworkConfig::new("owe")]);
    other.link.bss_info = bss(SecurityType::Owe);
    other.begin_auth(EapSetup::Missing, 0).unwrap();
    other.handle_event(&ok);
    other.handle_event(&WifiEvent::Associated { status: 0, ies: None });
    assert_eq!(other.state, WifiState::Failed);
}

#[test]
fn owe_associates_with_a_given_exchange() {
    let mut iface = iface_with(vec![NetworkConfig::new("owe")]);
    iface.link.bss_info = bss(SecurityType::Owe);
    let exchange = OweAuth::with_secret([9u8; 32]);
    let dh = exchange.build_dh_element();
    assert!(iface.associate_owe(exchange).ie.ends_with(&dh));
}

#[test]
fn ft_message_1_waits_for_the_key_hierarchy() {
    let mut iface = selected(SecurityType::FtPsk);
    iface.link.bss_info.mdie = Some(MdieInfo { mdid: [1, 2], ft_capab: 0 });
    iface.begin_auth(EapSetup::Missing, 0).unwrap();
    let ok = WifiEvent::Authenticated { status: 0, frame: None };
    let req = associate_of(iface.handle_event(&ok));
    assert!(req.ie.ends_with(&[54, 3, 1, 2, 0]));
    assert!(matches!(
        iface.handle_event(&WifiEvent::ControlPortFrame(message_1(1, 3))),
        EventStep::Port(PortStep::Nothing)
    ));
    assert!(iface.link.pending_ft_msg1.is_some());
    assert!(matches!(
        iface.handle_event(&WifiEvent::Associated { status: 0, ies: None }),
        EventStep::SetupFt
    ));
    let context = FtContext {
        pmk_r1: PmkR1 { key: [1u8; 32], name: [2u8; 16] },
        assoc_resp_ft_ies: vec![55, 0],
    };
    match iface.ft_context_ready(Some(context)) {
        PortStep::SendFrame(msg2) => {
            let data = eapol::parse_eapol_key_frame(&msg2).unwrap().key_data;
            assert_eq!(elements::rsne_first_pmkid(&data[2..]), Some([2u8; 16]));
            assert!(data.ends_with(&[55, 0]));
        },
        other => panic!("{other:?}"),
    }
    assert!(iface.link.pending_ft_msg1.is_none());
    assert!(matches!(iface.ft_context_ready(None), PortStep::Nothing));
    assert_eq!(iface.state, WifiState::Failed);
    // Without the mobility domain there is no association.
    let mut bare = selected(SecurityType::FtPsk);
    bare.begin_auth(EapSetup::Missing, 0).unwrap();
    assert!(matches!(bare.handle_event(&ok), EventStep::Nothing));
    assert_eq!(bare.state, WifiState::Failed);
}

#[test]
fn request_and_foreign_frames_are_dropped() {
    let mut iface = selected(SecurityType::Wpa2Psk);
    iface.begin_auth(EapSetup::Missing, 0).unwrap();
    let mut request = message_1(1, 2);
    request[5] |= 0x08;
    for frame in [request, vec![1, 2, 3], eapol::build_eapol_eap_frame(&[3, 1, 0, 4])] {
        assert!(matches!(
            iface.handle_event(&WifiEvent::ControlPortFrame(frame)),
            EventStep::Port(PortStep::Nothing)
        ));
    }
    assert!(iface.link.fourway.is_none());
    assert_eq!(iface.state, WifiState::Authenticating);
    // Message 1 without a key to prove fails the attempt.
    iface.auth.psk_pmk = None;
    iface.handle_event(&WifiEvent::ControlPortFrame(message_1(1, 2)));
    assert_eq!(iface.state, WifiState::Failed);
    // Message 3 before Message 1 too.
    iface.state = WifiState::Authenticating;
    let other = selected(SecurityType::Wpa2Psk);
    let mut other = other;
    other.begin_auth(EapSetup::Missing, 0).unwrap();
    let msg2 = sent_of(other.handle_event(&WifiEvent::ControlPortFrame(message_1(1, 2))));
    let msg3 = message_3(&ap_side(&other, &msg2), 2);
    iface.handle_event(&WifiEvent::ControlPortFrame(msg3));
    assert_eq!(iface.state, WifiState::Failed);
}

#[test]
fn channel_validation_needs_a_known_channel() {
    let mut iface = selected(SecurityType::Wpa2Psk);
    iface.link.network.set_ocv(true);
    let mut rsne = elements::wpa2_psk_ie_cipher(CipherSuite::BipCmac128);
    elements::rsne_set_ocvc(&mut rsne, true);
    iface.link.bss_info.ap_rsne = rsne.clone();
    iface.link.bss_info.ap_rsnxe = vec![];
    iface.begin_auth(EapSetup::Missing, 0).unwrap();
    let msg2 = sent_of(iface.handle_event(&WifiEvent::ControlPortFrame(message_1(1, 2))));
    let mut key_data = rsne.clone();
    key_data.extend_from_slice(&[0xdd, 7, 0x00, 0x0f, 0xac, 13, 81, 6, 0]);
    assert_eq!(eapol::parse_eapol_key_frame(&msg2).unwrap().key_data, key_data);
    assert_eq!(iface.link.fourway.as_ref().unwrap().ocv.unwrap().freq_mhz, 2437);
    // A Message 3 that names no channel fails the handshake.
    let ap = ap_side(&iface, &msg2);
    let step = iface.handle_event(&WifiEvent::ControlPortFrame(message_3_with(&ap, 2, &rsne)));
    assert!(matches!(step, EventStep::Port(PortStep::Nothing)));
    assert_eq!(iface.state, WifiState::Failed);
    iface.state = WifiState::Authenticating;
    let step = iface.handle_event(&WifiEvent::ControlPortFrame(message_3_with(&ap, 3, &key_data)));
    assert!(matches!(step, EventStep::Port(PortStep::InstallKeys { .. })));
    iface.begin_auth(EapSetup::Missing, 0).unwrap();
    iface.link.bss_info.freq_mhz = 1;
    iface.handle_event(&WifiEvent::ControlPortFrame(message_1(1, 2)));
    assert_eq!(iface.state, WifiState::Failed);
}

#[test]
fn authentication_errors() {
    let mut none = iface_with(vec![NetworkConfig::new("net")]);
    none.link.bss_info = bss(SecurityType::Wpa2Psk);
    let e = none.begin_auth(EapSetup::Missing, 0).unwrap_err();
    assert_eq!((e.kind, e.msg.as_str()), (ErrorKind::InvalidConfig, "password required for WPA2-PSK"));
    none.link.bss_info.security = SecurityType::Sae;
    let e = none.begin_auth(EapSetup::Missing, 0).unwrap_err();
    assert_eq!(e.msg, "password required for encrypted network");
    none.link.bss_info.security = SecurityType::Wpa2Ent;
    let e = none.begin_auth(EapSetup::Missing, 0).unwrap_err();
    assert!(e.msg.ends_with(" network requires EAP credentials"));
    none.link.network.eap = Some(Default::default());
    let cause = WifiError::new(ErrorKind::Io, "no file");
    let e = none.begin_auth(EapSetup::Unusable(cause), 0).unwrap_err();
    assert_eq!((e.kind, e.msg.as_str()), (ErrorKind::Io, "no file"));
}

#[test]
fn disconnects_by_state_and_reason() {
    let mut iface = selected(SecurityType::Wpa2Psk);
    iface.state = WifiState::ConnectedWithoutOffloadRekey;
    assert!(matches!(
        iface.handle_event(&WifiEvent::ApDisconnect { reason: 2 }),
        EventStep::Disconnect
    ));
    assert_eq!(iface.state, WifiState::FailedAuthentication);
    assert_eq!(iface.last_error.as_ref().unwrap().kind, ErrorKind::WrongPassword);
    // The trailing report of the same disconnect is stale.
    assert!(matches!(
        iface.handle_event(&WifiEvent::Disconnect { reason: 3 }),
        EventStep::Nothing
    ));
    assert_eq!(iface.state, WifiState::FailedAuthentication);
    iface.state = WifiState::ConnectedWithOffloadRekey;
    iface.handle_event(&WifiEvent::ApDisconnectNoReason);
    assert_eq!(iface.state, WifiState::Failed);
    iface.state = WifiState::ConnectedWithOffloadRekey;
    iface.roam.ft_roam = true;
    assert!(matches!(
        iface.handle_event(&WifiEvent::ApDisconnect { reason: 2 }),
        EventStep::Nothing
    ));
    assert_eq!(iface.state, WifiState::ConnectedWithOffloadRekey);
    iface.roam.ft_roam = false;
    iface.state = WifiState::Authenticating;
    iface.last_error = None;
    assert!(matches!(
        iface.handle_event(&WifiEvent::Disconnect { reason: 15 }),
        EventStep::Disconnect
    ));
    assert_eq!(iface.last_error.as_ref().unwrap().kind, ErrorKind::WrongPassword);
}

#[test]
fn wowlan_is_armed_and_cleared() {
    let mut iface = selected(SecurityType::Open);
    assert!(iface.wowlan_supported());
    assert!(!iface.arms_wowlan());
    match iface.arm_wowlan() {
        ArmStep::Request(t) => assert_eq!(t, vec![WowlanTrigger::Disconnect]),
        _ => panic!("nothing to arm"),
    }
    assert!(iface.arm_wowlan_done(true));
    assert!(matches!(iface.arm_wowlan(), ArmStep::Armed));
    iface.state = WifiState::ConnectedWithoutOffloadRekey;
    let wake = WifiEvent::WowlanWakeup(vec![WowlanTrigger::MagicPkt]);
    assert!(matches!(
        iface.handle_event(&wake),
        EventStep::Woken { disarm: true, disconnect: false }
    ));
    let wake = WifiEvent::WowlanWakeup(vec![WowlanTrigger::GtkRekeyFailure]);
    assert!(matches!(
        iface.handle_event(&wake),
        EventStep::Woken { disarm: false, disconnect: true }
    ));
    assert_eq!(iface.state, WifiState::Failed);
}

#[test]
fn events_are_routed() {
    let mut iface = selected(SecurityType::Sae);
    let mut frame = vec![0u8; 30];
    frame[24] = 10;
    assert!(matches!(
        iface.handle_event(&WifiEvent::Frame(frame.clone())),
        EventStep::WnmFrame
    ));
    frame[24] = 5;
    assert!(matches!(iface.handle_event(&WifiEvent::Frame(frame)), EventStep::RrmFrame));
    assert!(matches!(iface.handle_event(&WifiEvent::CqmRssi), EventStep::CqmRssi));
    assert!(matches!(iface.handle_event(&WifiEvent::Other), EventStep::Nothing));
    iface.scan.sched_scan_stop_pending = true;
    iface.handle_event(&WifiEvent::SchedScanStopped);
    assert!(!iface.scan.sched_scan_stop_pending);
    iface.handle_event(&WifiEvent::ConnectResult { status: 0 });
    assert_eq!(iface.state, WifiState::Authenticating);
    iface.handle_event(&WifiEvent::ConnectResult { status: 1 });
    assert_eq!(iface.state, WifiState::Failed);
    iface.roam.ft_roam = true;
    assert!(matches!(
        iface.handle_event(&WifiEvent::Authenticated { status: 0, frame: None }),
        EventStep::FtAuthResponse
    ));
    assert!(matches!(
        iface.handle_event(&WifiEvent::Associated { status: 0, ies: None }),
        EventStep::FtAssocResponse
    ));
    iface.handle_event(&WifiEvent::Associated { status: 1, ies: None });
    assert!(!iface.roam.ft_roam);
    assert!(matches!(iface.handle_event(&WifiEvent::PortAuthorized), EventStep::Connected));
}

#[test]
fn backoff_doubles_to_its_cap() {
    let mut iface = selected(SecurityType::Open);
    let mut seen = Vec::new();
    for _ in 0..7 {
        iface.state = WifiState::Failed;
        match iface.next_step() {
            RunStep::Backoff { stop_scan: false, secs } => seen.push(secs),
            _ => panic!("no backoff"),
        }
        assert!(iface.still_failed());
        iface.backoff_elapsed();
        assert_eq!(iface.state, WifiState::Init);
    }
    assert_eq!(seen, vec![10, 20, 40, 80, 160, 300, 300]);
    iface.state = WifiState::FailedAuthentication;
    assert!(matches!(iface.next_step(), RunStep::Backoff { secs: 120, .. }));
    iface.backoff_elapsed();
    assert_eq!(iface.scan.scan_retry_interval, 300);
}

#[test]
fn hints_connect_without_a_scan_once() {
    let mut hints = NetworkConfigHints::new();
    hints.bssid = Some(AP);
    hints.frequency_mhz = Some(2412);
    hints.security = Some(SecurityType::Wpa2Psk);
    hints.ap_rsne = Some(vec![48, 0]);
    hints.ap_rsnxe = Some(vec![]);
    hints.group_mgmt_cipher = Some(CipherSuite::BipCmac128);
    let mut hinted = network("hinted", "12345678");
    hinted.set_hints(hints);
    let mut iface = iface_with(vec![network("plain", "12345678"), hinted]);
    iface.scan.hint_scan = true;
    assert!(matches!(iface.next_step(), RunStep::Authenticate));
    assert_eq!(iface.current_ssid(), "hinted");
    assert_eq!(iface.current_bssid(), AP);
    assert!(!iface.scan.hint_scan);
    iface.auth_requested();
    assert!(matches!(iface.next_step(), RunStep::WaitAuth(15)));
    iface.state = WifiState::Init;
    assert!(matches!(iface.next_step(), RunStep::Scan));
    iface.scan_requested();
    assert!(matches!(iface.next_step(), RunStep::WaitScan));
}

#[test]
fn missing_networks_hand_over_to_the_firmware() {
    let mut hidden = network("hidden", "12345678");
    hidden.set_hidden(true);
    let mut iface = iface_with(vec![network("net", "12345678"), hidden]);
    iface.scan.hint_scan = true;
    iface.scan_requested();
    let missing = || ScanOutcome::NotSelected(WifiError::new(ErrorKind::SsidNotFound, "none"));
    assert!(matches!(iface.scan_finished(missing()), Ok(ScanStep::Scan)));
    match iface.scan_finished(missing()) {
        Ok(ScanStep::SchedScan(req, e)) => {
            assert_eq!(req.ssids, vec!["", "hidden"]);
            assert_eq!(req.match_ssids, Some(vec!["net".to_string(), "hidden".to_string()]));
            assert_eq!(req.interval_sec, 10);
            assert_eq!(e.kind, ErrorKind::SsidNotFound);
        },
        _ => panic!("no scheduled scan"),
    }
    assert!(iface.sched_scan_entered(StartOutcome::Started));
    assert!(matches!(iface.next_step(), RunStep::WaitSchedScan(60)));
    assert!(matches!(
        iface.handle_sched_scan_results(missing()),
        Ok(SchedResultStep::Continue)
    ));
    // The kernel aborts the scan: it is restarted.
    assert!(matches!(iface.sched_scan_stopped(), SchedStep::Start(_)));
    iface.sched_scan_restarted(StartOutcome::Started);
    assert_eq!(iface.state, WifiState::SchedScanWait);
    let found = ScanOutcome::Selected(network("net", "12345678"), bss(SecurityType::Sae));
    assert!(matches!(
        iface.handle_sched_scan_results(found),
        Ok(SchedResultStep::Authenticate { stop_scan: true })
    ));
    assert_eq!(iface.current_bssid(), AP);
    assert!(iface.scan.sched_scan_stop_pending && !iface.scan.sched_scan_active);
}

#[test]
fn hidden_networks_rotate_through_the_firmware() {
    let mut networks = vec![network("net", "12345678")];
    for name in ["A", "B", "C", "D"] {
        let mut n = network(name, "12345678");
        n.set_hidden(true);
        networks.push(n);
    }
    let mut iface = iface_with(networks);
    iface.scan.hint_scan = false;
    iface.scan_requested();
    let missing = ScanOutcome::NotSelected(WifiError::new(ErrorKind::SsidNotFound, "none"));
    match iface.scan_finished(missing) {
        Ok(ScanStep::SchedScan(req, _)) => assert_eq!(req.ssids, vec!["", "A", "B", "C"]),
        _ => panic!("no scheduled scan"),
    }
    iface.sched_scan_entered(StartOutcome::Started);
    assert!(matches!(iface.next_step(), RunStep::WaitSchedScan(8)));
    assert!(matches!(iface.sched_scan_timed_out(), SchedStep::Stop));
    assert!(matches!(iface.next_step(), RunStep::WaitSchedScan(5)));
    match iface.sched_scan_stopped() {
        SchedStep::Start(req) => assert_eq!(req.ssids, vec!["", "D"]),
        _ => panic!("no rotation"),
    }
    iface.sched_scan_restarted(StartOutcome::Unsupported);
    assert_eq!(iface.state, WifiState::Failed);
    assert!(!iface.caps.sched_scan_supported);
}

#[test]
fn watchdog_and_unsupported_firmware() {
    let mut iface = iface_with(vec![network("net", "12345678")]);
    iface.state = WifiState::SchedScanWait;
    assert!(matches!(iface.sched_scan_timed_out(), SchedStep::Nothing));
    assert_eq!(iface.state, WifiState::Failed);
    assert_eq!(start_refused(Some(-95)), StartOutcome::Unsupported);
    assert_eq!(start_refused(Some(-16)), StartOutcome::Failed);
    assert_eq!(start_refused(None), StartOutcome::Failed);
    iface.caps.sched_scan_supported = false;
    iface.scan.hint_scan = false;
    iface.scan_requested();
    let missing = ScanOutcome::NotSelected(WifiError::new(ErrorKind::SsidNotFound, "none"));
    let e = iface.scan_finished(missing).err().unwrap();
    assert_eq!(e.kind, ErrorKind::SsidNotFound);
    iface.run_failed();
    assert_eq!(iface.state, WifiState::Failed);
    iface.state = WifiState::Authenticating;
    iface.run_failed();
    assert_eq!(iface.state, WifiState::FailedAuthentication);
    assert_eq!(channel_closed().msg, "event channel closed");
}

#[test]
fn roam_scans_are_invisible() {
    let mut iface = selected(SecurityType::Sae);
    iface.state = WifiState::ConnectedWithoutOffloadRekey;
    iface.link.bss_info.btm_support = true;
    let baseline = iface.baseline();
    assert!(matches!(iface.next_step(), RunStep::WaitConnected { arm_cqm: true }));
    assert_eq!(iface.connected_wait(Some(false)), ConnectedWait::Poll(5));
    assert!(!iface.tick_scans());
    assert_eq!(iface.connected_wait(Some(true)), ConnectedWait::Background);
    assert!(iface.tick_scans());
    iface.roam.roam_scan = true;
    iface.roam.pre_roam_state = Some(iface.state);
    iface.state = WifiState::Scanning;
    assert!(!iface.surfaces(WifiState::ConnectedWithoutOffloadRekey, baseline));
    assert_eq!(iface.baseline(), baseline);
    assert!(iface.takes_roam_results());
    iface.roam_scan_finished();
    assert_eq!(iface.state, WifiState::ConnectedWithoutOffloadRekey);
    assert!(!iface.surfaces(WifiState::Scanning, baseline));
    iface.link.bss_info.btm_support = false;
    assert_eq!(iface.connected_wait(None), ConnectedWait::Unbounded);
    iface.state = WifiState::Failed;
    assert!(iface.surfaces(WifiState::ConnectedWithoutOffloadRekey, baseline));
}

#[test]
fn network_updates() {
    let mut iface = selected(SecurityType::Sae);
    iface.state = WifiState::ConnectedWithoutOffloadRekey;
    iface.link.network = network("net", "12345678");
    assert!(matches!(
        iface.update_networks(vec![network("net", "12345678")]),
        UpdateStep::Unchanged
    ));
    let list = vec![network("net", "12345678"), network("more", "12345678")];
    assert!(matches!(iface.update_networks(list), UpdateStep::Kept));
    assert_eq!(iface.state, WifiState::ConnectedWithoutOffloadRekey);
    match iface.update_networks(vec![network("more", "12345678")]) {
        UpdateStep::Reset { disconnect, .. } => assert!(disconnect),
        _ => panic!("kept"),
    }
    assert_eq!(iface.state, WifiState::Init);
    assert_eq!(iface.current_ssid(), "more");
    iface.update_networks(vec![]);
    assert!(matches!(iface.next_step(), RunStep::Idle));
}

#[test]
fn clients_manage_interfaces_by_name() {
    let named = |name: &str, index: u32| {
        let mut config = WifiConfig::new(name);
        config.networks = vec![network(name, "12345678")];
        WifiIface::init(index, STA, config, None, 0, None).unwrap()
    };
    let e = check_configs(&vec![]).unwrap_err();
    assert_eq!(e.kind, ErrorKind::InvalidConfig);
    assert_eq!(e.msg, "WifiClient::init_multi(): at least one WifiConfig required");
    let twice = vec![WifiConfig::new("a"), WifiConfig::new("b"), WifiConfig::new("a")];
    let e = check_configs(&twice).unwrap_err();
    assert_eq!(e.msg, "WifiClient::init_multi(): duplicate interface a");
    assert!(WifiClient::init_multi(vec![named("a", 1), named("a", 2)]).is_err());
    let mut client = WifiClient::init_multi(vec![named("a", 1), named("b", 2)]).unwrap();
    assert!(client.check_run().is_ok());
    assert_eq!(client.current_ssid("b"), Some("b"));
    assert_eq!(client.current_bssid("a"), Some([0u8; 6]));
    assert_eq!(client.current_ssid("c"), None);
    assert!(!client.wowlan_supported("a"));
    assert!(client.takes_event(1, Some(2)) && !client.takes_event(0, Some(2)));
    assert!(client.takes_event(0, None) && client.takes_event(1, None));
    let e = client.update_networks("c", vec![]).err().unwrap();
    assert_eq!(e.kind, ErrorKind::InterfaceNotFound);
    assert_eq!(e.msg, "wifi interface c not found");
    assert!(client.update_networks("a", vec![]).is_ok());
    assert!(matches!(client.arm_wowlan("b"), Ok(ArmStep::Unsupported)));
    assert!(!client.disarm_wowlan_of("b").unwrap());
    assert_eq!(client.shutdown(), vec![(false, false), (false, false)]);
    let single = WifiClient::init(named("z", 9));
    assert_eq!(single.position("z"), Some(0));
}

#[test]
fn errors_are_reported_once_under_their_interface() {
    let mut iface = selected(SecurityType::Sae);
    iface.last_error = Some(WifiError::wrong_password("net"));
    let e = iface.report(Ok(WifiState::FailedAuthentication)).unwrap_err();
    assert_eq!(e.kind, ErrorKind::WrongPassword);
    assert_eq!(e.iface_name.as_deref(), Some("wlan0"));
    assert!(e.to_text().starts_with("[wlan0] "));
    let s = iface.report(Ok(WifiState::Scanning)).unwrap();
    assert_eq!((s.iface_name.as_str(), s.state), ("wlan0", WifiState::Scanning));
    iface.last_error = Some(WifiError::wrong_password("net"));
    let r = iface.run_result(Ok(WifiState::Failed));
    assert_eq!(r.error.unwrap().kind, ErrorKind::WrongPassword);
    let r = iface.run_result(Err(channel_closed()));
    assert_eq!(r.error.unwrap().kind, ErrorKind::Nl80211);
    assert_eq!(r.state, iface.state);
}

#[test]
fn interfaces_are_identified() {
    assert_eq!(interface_identity("wlan0", 3, STA, Some(1), "m").unwrap(), (3, STA, 1));
    let e = interface_identity("wlan0", 0, STA, Some(1), "m").unwrap_err();
    assert_eq!(e.kind, ErrorKind::InterfaceNotFound);
    let e = interface_identity("wlan0", 3, [0u8; 6], Some(1), "m").unwrap_err();
    assert_eq!(e.msg, "interface wlan0: index or mac not found in netlink message: m");
    let e = interface_identity("wlan0", 3, STA, None, "m").unwrap_err();
    assert_eq!(e.kind, ErrorKind::Nl80211);
    assert_eq!(interface_not_found("x").msg, "interface x not found");
    let e = WifiIface::init(1, STA, WifiConfig::new("x"), None, 0, None).err().unwrap();
    assert_eq!(e.msg, "WifiConfig: no networks configured");
}

fn candidate(ssid: &str, last_octet: u8, signal_dbm: i32, security: SecurityType) -> Candidate {
    let mut b = bss(security);
    b.bssid[5] = last_octet;
    b.signal_dbm = signal_dbm;
    Candidate { ssid: ssid.to_string(), bss: b }
}

#[test]
fn strongest_matching_bss_wins() {
    let networks = vec![network("home", "12345678"), network("office", "87654321")];
    let found = vec![
        candidate("other", 1, -20, SecurityType::Sae),
        candidate("home", 2, -70, SecurityType::Sae),
        candidate("office", 3, -50, SecurityType::Wpa2Psk),
        candidate("office", 4, -50, SecurityType::Wpa2Psk),
        candidate("home", 5, -30, SecurityType::Unsupported),
    ];
    match select_bss(&networks, found) {
        ScanOutcome::Selected(n, b) => {
            assert_eq!(n.ssid, "office");
            assert_eq!(n.password.as_deref(), Some("87654321"));
            assert_eq!(b.bssid[5], 3);
        },
        ScanOutcome::NotSelected(e) => panic!("{}", e.to_text()),
    }
    match select_bss(&networks, vec![candidate("other", 1, -20, SecurityType::Sae)]) {
        ScanOutcome::NotSelected(e) => assert_eq!(e.kind, ErrorKind::SsidNotFound),
        ScanOutcome::Selected(..) => panic!("selected an unknown SSID"),
    }
}

#[test]
fn security_of_a_bss() {
    assert_eq!(security_of_akm(elements::AKM_SAE), SecurityType::Sae);
    assert_eq!(security_of_akm(elements::AKM_FT_PSK), SecurityType::FtPsk);
    assert_eq!(security_of_akm(0x07ac_0f00), SecurityType::Unsupported);
    assert_eq!(bss_security(None, false), SecurityType::Open);
    assert_eq!(bss_security(None, true), SecurityType::Unsupported);
    let akms = [0x07ac_0f00, elements::AKM_PSK, elements::AKM_SAE];
    assert_eq!(bss_security(Some(&akms), true), SecurityType::Wpa2Psk);
    assert_eq!(bss_security(Some(&[]), true), SecurityType::Unsupported);
}

#[test]
fn ft_key_hierarchy_of_an_association() {
    let mut iface = selected(SecurityType::FtPsk);
    iface.begin_auth(EapSetup::Missing, 0).unwrap();
    let mdie = [54, 3, 1, 2, 0];
    let mut ftie = vec![55, 82 + 5 + 8];
    ftie.extend_from_slice(&[0u8; 82]);
    ftie.extend_from_slice(&[3, 3, b'k', b'h', b'0']);
    ftie.extend_from_slice(&[1, 6, 9, 8, 7, 6, 5, 4]);
    let ies = [&mdie[..], &ftie[..]].concat();
    let context = iface.setup_ft_context(&ies).unwrap();
    assert_eq!(context.assoc_resp_ft_ies, ies);
    let pmk = pbkdf2_pmk("12345678", "net");
    let r0 = derive_pmk_r0(&pmk, "net", [1, 2], b"kh0", STA);
    let r1 = derive_pmk_r1(&r0, [9, 8, 7, 6, 5, 4], STA);
    assert_eq!(context.pmk_r1.key, r1.key);
    assert_eq!(context.pmk_r1.name, r1.name);

    let text = |ies: &[u8], iface: &WifiIface| iface.setup_ft_context(ies).unwrap_err().msg;
    assert_eq!(text(&[], &iface), "FT association response without MDIE");
    assert_eq!(text(&[54, 1, 1], &iface), "FT association response with a short MDIE");
    assert_eq!(text(&mdie, &iface), "FT association response without FTIE");
    assert_eq!(
        text(&[&mdie[..], &[55, 1, 0]].concat(), &iface),
        "FT association response with a short FTIE"
    );
    let mut bare = vec![55, 82];
    bare.extend_from_slice(&[0u8; 82]);
    assert_eq!(text(&[&mdie[..], &bare[..]].concat(), &iface), "FTIE without R0KH-ID");
    bare[1] = 87;
    bare.extend_from_slice(&[3, 3, b'k', b'h', b'0']);
    assert_eq!(text(&[&mdie[..], &bare[..]].concat(), &iface), "FTIE without R1KH-ID");
    iface.auth.psk_pmk = None;
    assert_eq!(text(&ies, &iface), "no PMK for the FT key hierarchy");
}

#[test]
fn networks_are_configured_step_by_step() {
    let mut config = WifiConfig::new("wlan0");
    config.add_network("home", Some("12345678")).add_network("cafe", None);
    assert_eq!(config.networks.len(), 2);
    assert_eq!(config.networks[0].password.as_deref(), Some("12345678"));
    assert!(config.networks[1].password.is_none());

    let mut n = NetworkConfig::new("home");
    assert!(n.can_roam_to_security(SecurityType::Open));
    n.set_sae_password_id(Some("id")).set_ext_key_id(true).set_ocv(true);
    assert_eq!(n.sae_password_id.as_deref(), Some("id"));
    assert!(n.ext_key_id && n.ocv);
    n.set_sae_password_id(None);
    assert!(n.sae_password_id.is_none());
    let mut eap = EapConfig::default();
    eap.identity = "user".to_string();
    n.set_eap(eap);
    assert_eq!(n.eap.as_ref().map(|e| e.identity.as_str()), Some("user"));
    // A network with credentials never roams to an open BSS.
    assert!(!n.can_roam_to_security(SecurityType::Open));
    assert!(n.can_roam_to_security(SecurityType::Wpa2Ent));
    assert!(!n.can_roam_to_security(SecurityType::Unsupported));

    let hints = NetworkConfigHints::new().with_frequencies_mhz(vec![2412, 5180]);
    assert_eq!(hints.frequencies_mhz, vec![2412, 5180]);
    assert!(hints.bss_info().is_none());
}

#[test]
fn statuses_and_reasons_of_frames() {
    let frame = build_sae_auth_frame(STA, AP, 1, 76, &[]);
    assert_eq!(authentication_status(None, &Some(frame.clone())), 76);
    assert_eq!(authentication_status(Some(0), &Some(frame.clone())), 76);
    assert_eq!(authentication_status(Some(1), &Some(frame)), 1);
    assert_eq!(authentication_status(None, &Some(vec![0xff; 29])), 0);
    assert_eq!(authentication_status(None, &None), 0);
    let mut deauth = vec![0u8; 24];
    assert!(matches!(ap_disconnect_event(&Some(deauth.clone())), WifiEvent::ApDisconnectNoReason));
    deauth.extend_from_slice(&[0x17, 0x01]);
    assert!(matches!(
        ap_disconnect_event(&Some(deauth)),
        WifiEvent::ApDisconnect { reason: 0x0117 }
    ));
    assert!(matches!(ap_disconnect_event(&None), WifiEvent::ApDisconnectNoReason));
}

#[test]
fn extended_key_id_installs_the_pairwise_key_in_two_phases() {
    let mut iface = selected(SecurityType::Wpa2PskSha256);
    iface.link.network.set_ext_key_id(true);
    let mut rsne = elements::wpa2_psk_sha256_ie_cipher(CipherSuite::BipCmac128);
    elements::rsne_set_ext_key_id(&mut rsne, true);
    iface.link.bss_info.ap_rsne = rsne.clone();
    iface.link.bss_info.ap_rsnxe = vec![];
    iface.begin_auth(EapSetup::Missing, 0).unwrap();
    let msg2 = sent_of(iface.handle_event(&WifiEvent::ControlPortFrame(message_1(1, 3))));
    assert_eq!(eapol::parse_eapol_key_frame(&msg2).unwrap().key_data, rsne);
    let ap = ap_side(&iface, &msg2);
    let mut key_data = rsne;
    key_data.extend_from_slice(&[0xdd, 6, 0x00, 0x0f, 0xac, 10, 1, 0]);
    match iface.handle_event(&WifiEvent::ControlPortFrame(message_3_with(&ap, 2, &key_data))) {
        EventStep::Port(PortStep::InstallKeys { steps, .. }) => {
            assert_eq!(steps.len(), 3);
            assert!(matches!(&steps[0], KeyStep::InstallPairwiseRx { key_id: 1, .. }));
            assert!(matches!(&steps[1], KeyStep::SendFrame(_)));
            assert!(matches!(&steps[2], KeyStep::InstallPairwise { key_id: Some(1), .. }));
        },
        _ => panic!("handshake did not complete"),
    }
}

#[test]
fn mic_mismatch_is_a_wrong_password_in_the_psk_modes_alone() {
    for (security, kind) in [
        (SecurityType::Wpa2Psk, Some(ErrorKind::WrongPassword)),
        (SecurityType::Wpa2PskSha256, Some(ErrorKind::WrongPassword)),
        (SecurityType::FtPsk, Some(ErrorKind::WrongPassword)),
        (SecurityType::Sae, None),
    ] {
        let mut iface = selected(security);
        let fw = FourWayState::with_snonce(
            &[1u8; 32], MicAlg::AesCmac, STA, AP, vec![], vec![], vec![], None, [2u8; 32],
        );
        let failed = WifiError::new(ErrorKind::HandshakeFailed, "MIC mismatch");
        assert!(matches!(iface.finish_message_3(fw, Err(failed)), PortStep::Nothing));
        match kind {
            Some(kind) => {
                assert_eq!(iface.state, WifiState::FailedAuthentication);
                assert_eq!(iface.last_error.as_ref().unwrap().kind, kind);
            },
            None => assert_eq!(iface.state, WifiState::Failed),
        }
    }
}

#[test]
fn uncomputable_macs_fail_the_attempt() {
    let cause = || WifiError::new(ErrorKind::HandshakeFailed, "Unspecified");
    let fw = || {
        FourWayState::with_snonce(
            &[1u8; 32], MicAlg::AesCmac, STA, AP, vec![], vec![], vec![], None, [2u8; 32],
        )
    };
    let mut iface = selected(SecurityType::Wpa2PskSha256);
    assert!(matches!(iface.finish_message_1(fw(), Err(cause())), PortStep::Nothing));
    assert_eq!(iface.state, WifiState::Failed);
    let mut iface = selected(SecurityType::Wpa2PskSha256);
    assert!(matches!(iface.finish_message_3(fw(), Err(cause())), PortStep::Nothing));
    assert_eq!(iface.state, WifiState::Failed);
    // A group rekey that fails is left alone.
    let mut iface = selected(SecurityType::Wpa2PskSha256);
    let before = iface.state.clone();
    assert!(matches!(iface.finish_group_rekey(fw(), Err(cause())), PortStep::Nothing));
    assert_eq!(iface.state, before);
    match iface.finish_message_1(fw(), Ok(vec![1, 2])) {
        PortStep::SendFrame(f) => assert_eq!(f, vec![1, 2]),
        _ => panic!("no frame to send"),
    }
}

#[test]
fn sae_falls_back_to_hash_to_element_once() {
    for refused in [true, false] {
        let mut iface = selected(SecurityType::Sae);
        iface.link.bss_info.ap_rsnxe = vec![];
        let request = iface.begin_auth(EapSetup::Missing, 0).unwrap();
        match &request {
            AuthRequest::Sae(commit) => assert_eq!(&commit[..4], &[1, 0, 0, 0]),
            other => panic!("{other:?}"),
        }
        iface.auth_request_sent(request);
        let reject = build_sae_auth_frame(AP, STA, 1, 1, &[]);
        let step = if refused {
            match iface.handle_event(&WifiEvent::Frame(reject.clone())) {
                EventStep::Auth(step) => step,
                _ => panic!("no step"),
            }
        } else {
            for _ in 0..3 {
                assert!(matches!(iface.auth_timed_out(), AuthStep::SendCommit(_)));
            }
            iface.auth_timed_out()
        };
        let commit = match step {
            AuthStep::SendCommit(c) => c,
            other => panic!("{other:?}"),
        };
        assert_eq!(&commit[..4], &[1, 0, 126, 0]);
        iface.commit_sent(commit, true);
        // There is no third exchange.
        assert!(matches!(
            iface.handle_event(&WifiEvent::Frame(reject)),
            EventStep::Auth(AuthStep::Nothing)
        ));
        assert_eq!(iface.state, WifiState::FailedAuthentication);
    }
    // A network that asks for one method keeps to it.
    let mut iface = selected(SecurityType::Sae);
    iface.link.network.sae_pwe = shuli::config::SaePwe::HnP;
    let request = iface.begin_auth(EapSetup::Missing, 0).unwrap();
    iface.auth_request_sent(request);
    iface.handle_event(&WifiEvent::Frame(build_sae_auth_frame(AP, STA, 1, 1, &[])));
    assert_eq!(iface.state, WifiState::FailedAuthentication);
    let mut iface = selected(SecurityType::Sae);
    iface.link.network.password = None;
    assert!(matches!(iface.restart_sae_with_h2e(), AuthStep::Nothing));
    assert_eq!(iface.last_error.as_ref().unwrap().msg, "no password for H2E SAE restart");
}

#[test]
fn sae_ext_key_authenticates_with_sae_frames() {
    for security in [SecurityType::SaeExtKey, SecurityType::FtSaeExtKey] {
        let mut iface = selected(security);
        iface.begin_auth(EapSetup::Missing, 0).unwrap();
        // A status without a frame is no reason to associate.
        assert!(matches!(
            iface.handle_event(&WifiEvent::Authenticated { status: 0, frame: None }),
            EventStep::Nothing
        ));
        let reject = build_sae_auth_frame(AP, STA, 1, 1, &[]);
        assert!(matches!(
            iface.handle_event(&WifiEvent::Authenticated { status: 1, frame: Some(reject) }),
            EventStep::Auth(AuthStep::SendCommit(_))
        ));
    }
}

#[test]
fn bss_is_described_by_its_elements() {
    let rsne = elements::sae_ie_cipher(CipherSuite::BipGmac256);
    let mut ies = vec![0, 3, b'n', b'e', b't'];
    ies.extend_from_slice(&rsne);
    ies.extend_from_slice(&elements::mdie([7, 8], 1));
    ies.extend_from_slice(&[70, 5, 0x02, 0, 0, 0, 0]);
    ies.extend_from_slice(&[127, 3, 0, 0, 0x08]);
    let b = describe_bss(AP, 2437, -50, true, &ies);
    assert_eq!((b.bssid, b.freq_mhz, b.signal_dbm), (AP, 2437, -50));
    assert_eq!(b.security, SecurityType::Sae);
    assert_eq!([&b.ap_rsne[..], &b.ap_rsnxe[..]].concat(), rsne);
    assert_eq!(b.group_mgmt_cipher, CipherSuite::BipGmac256);
    assert_eq!(b.mdie.as_ref().map(|m| (m.mdid, m.ft_capab)), Some(([7, 8], 1)));
    assert!(b.btm_support && b.rm_neighbor_report && !b.hidden);
    let bare = describe_bss(AP, 2437, -50, false, &[127, 3, 0, 0, 0x04, 70, 1, 0x01]);
    assert_eq!(bare.security, SecurityType::Open);
    assert!(bare.ap_rsne.is_empty() && bare.mdie.is_none());
    assert!(!bare.btm_support && !bare.rm_neighbor_report);
    assert_eq!(describe_bss(AP, 2437, -50, true, &[]).security, SecurityType::Unsupported);
    // An RSNE that ends within its AKM list holds the suites before that.
    assert_eq!(rsne_akms(&rsne[2..]), vec![elements::AKM_SAE]);
    let mut two = rsne[2..14].to_vec();
    two.extend_from_slice(&[2, 0, 0x00, 0x0f, 0xac, 2, 0x00]);
    assert_eq!(rsne_akms(&two), vec![elements::AKM_PSK]);
    assert!(rsne_akms(&[1, 0]).is_empty());
}

#[test]
fn message_1_is_answered_in_every_mic_algorithm() {
    for (security, version) in [
        (SecurityType::Wpa2Psk, 2),
        (SecurityType::Wpa2PskSha256, 3),
    ] {
        let mut iface = selected(security);
        iface.begin_auth(EapSetup::Missing, 0).unwrap();
        let ap = handshake(&mut iface, version);
        match iface.handle_event(&WifiEvent::ControlPortFrame(keyed(&ap, 3, 0, 0x88))) {
            EventStep::Port(PortStep::Rekey { index, key, .. }) => {
                assert_eq!((index, key), (1, vec![0x88u8; 16]));
            },
            _ => panic!("no rekey"),
        }
    }
}
