use shuli::wpa3::error::{ErrorKind, WpaError};
use shuli::wpa3::handshake4::{
    aes_cmac, aes_key_unwrap, aes_key_wrap, parse_gtk_kde, FourWayState,
};
use shuli::wpa3::sae::{compute_pwe_h2e, SaeState};

#[test]
fn test_ptk_derivation() {
    let pmk = [0x01u8; 32];
    let pmkid = [0x02u8; 16];
    let sta = [0x03u8; 6];
    let ap = [0x04u8; 6];
    let mut state = FourWayState::new(&pmk, &pmkid, sta, ap, vec![]).unwrap();
    let anonce = [0x05u8; 32];

    state.anonce = Some(anonce);
    state.ptk = Some(state.derive_ptk());

    let ptk = state.ptk.unwrap();
    assert_eq!(ptk.len(), 48);
    assert_eq!(state.kck().unwrap().len(), 16);
    assert_eq!(state.kek().unwrap().len(), 16);
    assert_eq!(state.tk().unwrap().len(), 16);
}

#[test]
fn test_mic_roundtrip() {
    let kck = [0xAAu8; 16];
    let data = b"some eapol pdu bytes";
    let mic = aes_cmac(&kck, data).unwrap();
    assert_eq!(mic.len(), 16);
    let mic2 = aes_cmac(&kck, data).unwrap();
    assert_eq!(mic, mic2);
}

#[test]
fn test_gtk_unwrap() {
    let kek = [0xCCu8; 16];
    let gtk = [0xDDu8; 16];
    let wrapped = aes_key_wrap(&kek, &gtk).unwrap();
    assert_eq!(wrapped.len(), 24);
    let unwrapped = aes_key_unwrap(&kek, &wrapped).unwrap();
    assert_eq!(unwrapped, gtk.to_vec());
}

#[test]
fn test_parse_gtk_kde() {
    let gtk = [0x77u8; 16];
    let mut kde = vec![0xDD, (6 + gtk.len()) as u8, 0x00, 0x0F, 0xAC, 0x01, 0x01, 0x00];
    kde.extend_from_slice(&gtk);
    let (idx, parsed) = parse_gtk_kde(&kde).unwrap();
    assert_eq!(idx, 1);
    assert_eq!(parsed, gtk.to_vec());
}

#[test]
fn test_pwe_derivation() {
    let mac_sta = [0x02, 0x00, 0x00, 0x00, 0x00, 0x00];
    let mac_ap = [0x02, 0x00, 0x00, 0x00, 0x01, 0x00];
    let pwe = compute_pwe_h2e("12345678", "Test-WIFI", &mac_sta, &mac_ap);
    assert!(pwe.is_ok());
    assert!(!pwe.unwrap().is_identity());
}

#[test]
fn test_full_sae_exchange() {
    let mac_sta = [0x02, 0x00, 0x00, 0x00, 0x00, 0x00];
    let mac_ap = [0x02, 0x00, 0x00, 0x00, 0x01, 0x00];
    let password = "12345678";
    let ssid = "Test-WIFI";

    let mut supp = SaeState::new(password, ssid, mac_sta, mac_ap).unwrap();
    let (supp_scalar, supp_elem) = supp.build_commit().unwrap();

    let mut ap = SaeState::new(password, ssid, mac_ap, mac_sta).unwrap();
    let (ap_scalar, ap_elem) = ap.build_commit().unwrap();

    let supp_pwe_x = supp.exchange.pwe.to_x_y()[..32].to_vec();
    let ap_pwe_x = ap.exchange.pwe.to_x_y()[..32].to_vec();
    assert_eq!(supp_pwe_x, ap_pwe_x, "PWE x must match");

    let supp_confirm = supp.process_commit(&ap_scalar, &ap_elem).unwrap();
    let ap_confirm = ap.process_commit(&supp_scalar, &supp_elem).unwrap();

    assert_eq!(supp.pmk(), ap.pmk(), "PMK must match");
    assert_eq!(supp.pmkid(), ap.pmkid(), "PMKID must match");

    let mut ap_confirm_body = vec![1u8, 0u8];
    ap_confirm_body.extend_from_slice(&ap_confirm);
    supp.process_confirm(&ap_confirm_body).unwrap();

    let mut supp_confirm_body = vec![1u8, 0u8];
    supp_confirm_body.extend_from_slice(&supp_confirm);
    ap.process_confirm(&supp_confirm_body).unwrap();
}

#[test]
fn test_sae_different_passwords() {
    let mac_sta = [0x02, 0x00, 0x00, 0x00, 0x00, 0x00];
    let mac_ap = [0x02, 0x00, 0x00, 0x00, 0x01, 0x00];
    let ssid = "Test-WIFI";

    let mut supp = SaeState::new("12345678", ssid, mac_sta, mac_ap).unwrap();
    let (supp_scalar, supp_elem) = supp.build_commit().unwrap();

    let mut ap = SaeState::new("wrong_password", ssid, mac_ap, mac_sta).unwrap();
    let (ap_scalar, ap_elem) = ap.build_commit().unwrap();

    supp.process_commit(&ap_scalar, &ap_elem).unwrap();
    ap.process_commit(&supp_scalar, &supp_elem).unwrap();

    assert_ne!(supp.pmk(), ap.pmk(), "PMK must differ");
}

#[test]
fn key_wrap_changes_its_input_and_rejects_tampering() {
    let kek = [1u8; 16];
    let mut wrapped = aes_key_wrap(&kek, &[2u8; 16]).unwrap();
    assert_ne!(&wrapped[8..], &[2u8; 16]);
    wrapped[3] ^= 0x80;
    assert_eq!(aes_key_unwrap(&kek, &wrapped).unwrap_err().kind, ErrorKind::HandshakeFailed);
}

#[test]
fn message_3_completes_the_handshake() {
    let mut s = FourWayState::new(&[1u8; 32], &[2u8; 16], [3u8; 6], [4u8; 6], vec![48, 0]).unwrap();
    s.process_message_1(&[5u8; 32]).unwrap();
    assert!(s.ptk().is_some());
    assert_eq!(s.anonce(), Some([5u8; 32]));
    assert!(s.gtk().is_none());
}

#[test]
fn error_text_is_kind_and_message() {
    let e = WpaError::new(ErrorKind::SaeFailed, "no");
    assert!(e.to_text().ends_with("no"));
    assert!(e.to_text().starts_with(ErrorKind::SaeFailed.name()));
}
