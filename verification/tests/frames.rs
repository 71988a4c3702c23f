use shuli::crypto::ft::ft_mic;
use shuli::ieee80211::assoc::{build_assoc_req, parse_assoc_resp};
use shuli::ieee80211::auth::{build_sae_auth_frame, parse_sae_auth_frame};
use shuli::ieee80211::band::operating_class_channel_to_freq;
use shuli::ieee80211::elements;
use shuli::ieee80211::elements::CipherSuite;
use shuli::ieee80211::eapol;
use shuli::ieee80211::eapol::{
    build_eapol_eap_frame, build_group_message_2, build_message_2, build_message_4,
    parse_eapol_eap_frame, parse_eapol_key_frame, pdu_with_zeroed_mic, OFF_MIC,
};
use shuli::ieee80211::rrm::{
    build_neighbor_report_request, parse_neighbor_report_response, IE_ID_NEIGHBOR_REPORT,
};
use shuli::ieee80211::wnm::{build_btm_response, parse_btm_request};

#[test]
fn roundtrip_sae_commit_frame() {
    let sta = [0x02u8; 6];
    let ap = [0x01u8; 6];
    let payload = b"0123456789abcdef0123456789abcdef".to_vec();
    let frame = build_sae_auth_frame(sta, ap, 1, 0, &payload);
    assert!(frame.len() > 24);
    let parsed = parse_sae_auth_frame(&frame);
    assert!(parsed.is_some());
    let (seq, status, pl) = parsed.unwrap();
    assert_eq!(seq, 1);
    assert_eq!(status, 0);
    assert_eq!(pl, payload);
}

#[test]
fn parse_wrong_auth_alg() {
    let frame = build_sae_auth_frame([0u8; 6], [0u8; 6], 1, 0, &[]);
    let mut modified = frame.clone();
    modified[24] = 0;
    modified[25] = 1;
    assert!(parse_sae_auth_frame(&modified).is_none());
}

#[test]
fn parse_too_short() {
    assert!(parse_sae_auth_frame(&[0u8; 10]).is_none());
}

#[test]
fn sae_frame_layout() {
    let frame = build_sae_auth_frame([0x02u8; 6], [0x01u8; 6], 2, 76, &[9, 8]);
    assert_eq!(&frame[10..16], &[0x02u8; 6]);
    assert_eq!(&frame[4..10], &[0x01u8; 6]);
    assert_eq!(&frame[24..], &[3, 0, 2, 0, 76, 0, 9, 8]);
}

#[test]
fn roundtrip_msg2() {
    let snonce = [0xABu8; 32];
    let rsne = vec![0x30, 0x14, 0x01, 0x00];
    let pdu = build_message_2(&snonce, 1, &rsne);
    let parsed = parse_eapol_key_frame(&pdu).unwrap();
    assert!(parsed.has_mic());
    assert!(parsed.is_pairwise());
    assert_eq!(parsed.key_nonce, snonce);
    assert_eq!(parsed.key_data, rsne);
    assert_eq!(parsed.replay_counter, 1);
}

#[test]
fn mic_offset_is_correct() {
    assert_eq!(OFF_MIC, 81);
    let pdu = build_message_4(&[0u8; 32], 2);
    let zeroed = pdu_with_zeroed_mic(&pdu);
    assert_eq!(&zeroed[OFF_MIC..OFF_MIC + 16], &[0u8; 16]);
}

#[test]
fn reject_non_eapol() {
    assert!(parse_eapol_key_frame(&[0u8; 20]).is_none());
}

#[test]
fn zeroed_mic_clears_a_patched_mic_and_nothing_else() {
    let mut pdu = build_message_4(&[7u8; 32], 5);
    let before = pdu.clone();
    eapol::set_mic(&mut pdu, &[0xEEu8; 16]);
    assert_ne!(pdu, before);
    assert_eq!(pdu_with_zeroed_mic(&pdu), before);
}

#[test]
fn group_message_2_is_secure_and_echoes_the_counter() {
    let pdu = build_group_message_2(9, &[1, 2, 3, 4, 5, 6, 7, 8]);
    let parsed = parse_eapol_key_frame(&pdu).unwrap();
    assert!(parsed.has_mic() && parsed.is_secure());
    assert!(!parsed.is_pairwise() && !parsed.has_ack());
    assert_eq!(parsed.replay_counter, 9);
    assert_eq!(parsed.key_rsc, [1, 2, 3, 4, 5, 6, 7, 8]);
    assert!(parsed.key_data.is_empty());
}

#[test]
fn key_data_shorter_than_announced_is_dropped() {
    let mut pdu = build_message_2(&[0u8; 32], 1, &[1, 2, 3, 4]);
    pdu.truncate(pdu.len() - 1);
    assert!(parse_eapol_key_frame(&pdu).unwrap().key_data.is_empty());
}

#[test]
fn eap_frame_roundtrip() {
    let eap = vec![3, 7, 0, 4];
    let frame = build_eapol_eap_frame(&eap);
    assert_eq!(frame, vec![2, 0, 0, 4, 3, 7, 0, 4]);
    assert_eq!(parse_eapol_eap_frame(&frame), Some(eap));
    assert_eq!(parse_eapol_eap_frame(&[2, 0, 0, 5, 3, 7, 0, 4]), None);
    assert_eq!(parse_eapol_eap_frame(&[2, 3, 0, 0]), None);
}

#[test]
fn operating_class_channel_to_freq_2ghz() {
    assert_eq!(operating_class_channel_to_freq(81, 1), Some(2412));
    assert_eq!(operating_class_channel_to_freq(81, 6), Some(2437));
    assert_eq!(operating_class_channel_to_freq(81, 13), Some(2472));
    assert_eq!(operating_class_channel_to_freq(82, 14), Some(2484));
    assert_eq!(operating_class_channel_to_freq(81, 14), None);
}

#[test]
fn operating_class_channel_to_freq_5ghz() {
    assert_eq!(operating_class_channel_to_freq(115, 36), Some(5180));
    assert_eq!(operating_class_channel_to_freq(124, 149), Some(5745));
    assert_eq!(operating_class_channel_to_freq(128, 177), Some(5885));
    assert_eq!(operating_class_channel_to_freq(115, 20), None);
}

#[test]
fn operating_class_channel_to_freq_6ghz() {
    assert_eq!(operating_class_channel_to_freq(131, 1), Some(5955));
    assert_eq!(operating_class_channel_to_freq(131, 5), Some(5975));
    assert_eq!(operating_class_channel_to_freq(155, 233), Some(7115));
    assert_eq!(operating_class_channel_to_freq(131, 2), None);
}

#[test]
fn operating_class_channel_to_freq_unknown() {
    assert_eq!(operating_class_channel_to_freq(200, 1), None);
    assert_eq!(operating_class_channel_to_freq(0, 6), None);
}

#[test]
fn build_neighbor_report_request_layout() {
    assert_eq!(build_neighbor_report_request(0x2a), vec![5, 4, 0x2a]);
}

#[test]
fn parse_neighbor_report_response_entries() {
    let mut body = vec![0x2a];
    body.push(IE_ID_NEIGHBOR_REPORT);
    body.push(13);
    body.extend_from_slice(&[0x02, 0, 0, 0, 0x03, 0]);
    body.extend_from_slice(&[1, 0, 0, 0]);
    body.extend_from_slice(&[81, 6, 7]);
    body.extend_from_slice(&[6, 3, 1, 2, 3]);

    let resp = parse_neighbor_report_response(&body).expect("parse");
    assert_eq!(resp.dialog_token, 0x2a);
    assert_eq!(resp.entries.len(), 1);
    let entry = &resp.entries[0];
    assert_eq!(entry.bssid, [0x02, 0, 0, 0, 0x03, 0]);
    assert_eq!(entry.bssid_info, 1);
    assert_eq!(entry.operating_class, 81);
    assert_eq!(entry.channel, 6);
    assert_eq!(entry.phy_type, 7);
}

#[test]
fn parse_neighbor_report_response_skips_foreign_elements() {
    let body = vec![1, 0, 3, b'a', b'b', b'c', 52, 5, 1, 2, 3, 4, 5];
    let resp = parse_neighbor_report_response(&body).expect("parse");
    assert_eq!(resp.dialog_token, 1);
    assert!(resp.entries.is_empty());
}

#[test]
fn parse_neighbor_report_response_empty() {
    assert!(parse_neighbor_report_response(&[]).is_none());
}

#[test]
fn btm_request_with_preferred_candidate() {
    // Dialog token, mode (preferred candidates), timer, validity, then one
    // neighbor report followed by its preference octet.
    let mut body = vec![3, 0x01, 0x10, 0x00, 0xff];
    body.extend_from_slice(&[52, 14]);
    body.extend_from_slice(&[2, 0, 0, 0, 9, 9]);
    body.extend_from_slice(&[0, 0, 0, 0]);
    body.extend_from_slice(&[115, 36, 9]);
    body.push(200);
    let req = parse_btm_request(&body).expect("parse");
    assert_eq!(req.dialog_token, 3);
    assert!(req.preferred_candidates);
    assert_eq!(req.disassoc_timer, 16);
    assert_eq!(req.validity_interval, 255);
    assert_eq!(req.candidates.len(), 1);
    assert_eq!(req.candidates[0].bssid, [2, 0, 0, 0, 9, 9]);
    assert_eq!(req.candidates[0].channel, 36);
    assert_eq!(req.candidates[0].preference, Some(200));
    assert!(parse_btm_request(&[3, 1]).is_none());
}

#[test]
fn btm_response_layout() {
    assert_eq!(
        build_btm_response(3, 0, [1, 2, 3, 4, 5, 6]),
        vec![10, 8, 3, 0, 0, 1, 2, 3, 4, 5, 6]
    );
}

#[test]
fn psk_rsne_octets() {
    assert_eq!(
        elements::wpa2_psk_ie_cipher(CipherSuite::BipCmac128),
        vec![
            48, 26, 1, 0, 0x00, 0x0f, 0xac, 4, 1, 0, 0x00, 0x0f, 0xac, 4, 1, 0, 0x00, 0x0f, 0xac,
            2, 0x80, 0x00, 0, 0, 0x00, 0x0f, 0xac, 6,
        ]
    );
}

#[test]
fn pmkid_in_rsne_is_found_and_ignored_in_comparison() {
    let plain = elements::wpa2_psk_ie_cipher(CipherSuite::BipCmac128);
    let with = elements::wpa2_psk_ie_with_pmkid_cipher(Some([7u8; 16]), CipherSuite::BipCmac128);
    assert_eq!(elements::rsne_first_pmkid(&with[2..]), Some([7u8; 16]));
    assert_eq!(elements::rsne_first_pmkid(&plain[2..]), None);
    assert!(elements::rsne_match_ignore_pmkid(&plain, &with));
    let other = elements::wpa2_psk_sha256_ie_cipher(CipherSuite::BipCmac128);
    assert!(!elements::rsne_match_ignore_pmkid(&plain, &other));
}

#[test]
fn capability_bits_are_set_and_cleared() {
    let mut rsne = elements::wpa2_psk_ie_cipher(CipherSuite::BipCmac128);
    assert!(!elements::ap_rsne_supports_ocv(&rsne));
    elements::rsne_set_ocvc(&mut rsne, true);
    elements::rsne_set_ext_key_id(&mut rsne, true);
    assert!(elements::ap_rsne_supports_ocv(&rsne));
    assert!(elements::ap_rsne_supports_ext_key_id(&rsne));
    assert_eq!(elements::rsne_capabilities_field(&rsne[2..]), Some(0x6080));
    elements::rsne_set_ocvc(&mut rsne, false);
    assert!(!elements::ap_rsne_supports_ocv(&rsne));
}

#[test]
fn group_management_cipher_is_negotiated() {
    let ap = elements::sae_ie_cipher(CipherSuite::BipGmac256);
    assert_eq!(elements::negotiate_group_mgmt_cipher(&ap), CipherSuite::BipGmac256);
    assert_eq!(elements::negotiate_group_mgmt_cipher(&[]), CipherSuite::BipCmac128);
}

#[test]
fn mdie_roundtrip() {
    let e = elements::mdie([0xa1, 0xb2], 1);
    assert_eq!(e, vec![54, 3, 0xa1, 0xb2, 1]);
    assert_eq!(elements::parse_mdie(&e[2..]), Some(([0xa1, 0xb2], 1)));
    assert_eq!(elements::parse_mdie(&[1, 2]), None);
}

#[test]
fn ftie_request_parses_back() {
    let e = elements::ftie_auth_request(&[5u8; 32], b"nas1");
    assert_eq!(e[0], 55);
    let parsed = elements::parse_ftie(&e[2..]).expect("parse");
    assert_eq!(parsed.snonce, [5u8; 32]);
    assert_eq!(parsed.r0kh_id.as_deref(), Some(&b"nas1"[..]));
    assert!(elements::parse_ftie(&[0u8; 81]).is_none());
}

#[test]
fn sae_rsne_octets() {
    let mut rsne = vec![48, 26, 1, 0, 0, 0x0f, 0xac, 4, 1, 0, 0, 0x0f, 0xac, 4, 1, 0];
    rsne.extend_from_slice(&[0, 0x0f, 0xac, 8, 0xc0, 0, 0, 0, 0, 0x0f, 0xac, 6]);
    let mut ie = rsne.clone();
    ie.extend_from_slice(&[244, 1, 0x20]);
    assert_eq!(elements::sae_ie(), ie);
    let akm = 15 + 4;
    assert_eq!(rsne[akm], 8);
    rsne[akm] = 9;
    assert_eq!(elements::ft_sae_rsne_cipher(None, CipherSuite::BipCmac128), rsne);
    rsne[akm] = 25;
    assert_eq!(elements::ft_sae_ext_key_rsne_cipher(None, CipherSuite::BipCmac128), rsne);
}

#[test]
fn ftie_of_a_reassociation_covers_its_elements() {
    let (kck, sta, ap) = ([1u8; 16], [2u8; 6], [3u8; 6]);
    let rsne = elements::ft_sae_rsne_cipher(Some([7u8; 16]), CipherSuite::BipCmac128);
    let mdie = elements::mdie([1, 2], 0);
    let rsnxe = elements::sae_rsnxe();
    for extra in [None, Some(rsnxe.as_slice())] {
        let ftie = elements::ftie_reassoc_request(
            &kck, sta, ap, &[5u8; 32], &[6u8; 32], b"kh0", &[9u8; 6], &rsne, &mdie, extra,
        )
        .unwrap();
        assert_eq!(&ftie[..2], &[55, (ftie.len() - 2) as u8]);
        let parsed = elements::parse_ftie(&ftie[2..]).unwrap();
        assert_eq!(parsed.anonce, [5u8; 32]);
        assert_eq!(parsed.snonce, [6u8; 32]);
        assert_eq!(parsed.r0kh_id.as_deref(), Some(&b"kh0"[..]));
        assert_eq!(parsed.r1kh_id, Some([9u8; 6]));
        let mut zeroed = ftie.clone();
        zeroed[4..20].fill(0);
        let covered = [&rsne[..], &mdie[..], &zeroed[..], extra.unwrap_or(&[])].concat();
        assert_eq!(parsed.mic, ft_mic(&kck, sta, ap, 5, &covered).unwrap());
    }
}

#[test]
fn key_information_in_words() {
    assert_eq!(eapol::fmt_key_info(0x008a), "desc=2 pairwise ack");
    assert_eq!(
        eapol::fmt_key_info(0x13ca),
        "desc=2 pairwise install ack mic secure enc-data"
    );
    let msg2 = eapol::build_message_2_with_version(&[0u8; 32], 1, &[], 2);
    let parsed = parse_eapol_key_frame(&msg2).unwrap();
    assert_eq!(parsed.descriptor_type(), 2);
    assert!(parsed.is_pairwise() && parsed.has_mic());
    assert!(!parsed.has_install() && !parsed.has_error());
}

#[test]
fn association_request_layout() {
    let frame = build_assoc_req([1u8; 6], [2u8; 6], &[48, 1, 7], None);
    assert_eq!(&frame[..4], &[0, 0, 0, 0]);
    assert_eq!(&frame[4..10], &[2u8; 6]);
    assert_eq!(&frame[10..16], &[1u8; 6]);
    assert_eq!(&frame[16..22], &[2u8; 6]);
    assert_eq!(&frame[22..], &[0, 0, 0x11, 0, 10, 0, 48, 1, 7]);
    let frame = build_assoc_req([1u8; 6], [2u8; 6], &[48, 1, 7], Some(&[244, 1, 0x20]));
    assert!(frame.ends_with(&[48, 1, 7, 244, 1, 0x20]));
}

#[test]
fn association_response_fields() {
    let mut frame = vec![0u8; 24];
    frame[0] = 0x10;
    frame.extend_from_slice(&[0x11, 0x04, 53, 0, 1, 0xc0]);
    assert_eq!(parse_assoc_resp(&frame), Some((0x0411, 53)));
    assert_eq!(parse_assoc_resp(&frame[..28]), Some((0x0411, 53)));
    assert_eq!(parse_assoc_resp(&frame[..27]), None);
    // A Reassociation Response and a request are none.
    frame[0] = 0x30;
    assert_eq!(parse_assoc_resp(&frame), None);
    assert_eq!(parse_assoc_resp(&build_assoc_req([1u8; 6], [2u8; 6], &[48, 0], None)), None);
}

#[test]
fn ft_group_keys_with_their_counters() {
    let mut body = vec![0u8; 82];
    body.extend_from_slice(&[2, 12, 1, 0, 16, 1, 2, 3, 4, 5, 6, 7, 8, 0xAA]);
    body.extend_from_slice(&[4, 10, 4, 0, 1, 2, 3, 4, 5, 6, 16, 0xBB]);
    let parsed = elements::parse_ftie(&body).unwrap();
    let gtk = parsed.gtk.unwrap();
    assert_eq!(gtk.key_index, 1);
    assert_eq!(gtk.rsc, vec![1, 2, 3, 4, 5, 6, 7, 8]);
    assert_eq!(gtk.wrapped_key, vec![0xAA]);
    let igtk = parsed.igtk.unwrap();
    assert_eq!((igtk.key_index, igtk.rsc, igtk.wrapped_key), (4, vec![1, 2, 3, 4, 5, 6], vec![0xBB]));
}
