use aes_kw::KwAes128;
use shuli::crypto::ft::{derive_ft_ptk, derive_pmk_r0, derive_pmk_r1, ft_mic, PmkR1};
use shuli::crypto::handshake4::{
    aes_cmac, aes_key_unwrap, compute_mic, parse_key_data_kdes, seal, FourWayState, MicAlg,
};
use shuli::crypto::kdf::{
    hkdf_expand, hkdf_extract_sha256, hmac_sha1_mic, hmac_sha256_mic, kdf, pbkdf2_pmk, pmkid_sha1,
    pmkid_sha256, prf_sha1,
};
use shuli::crypto::ocv::verify_oci;
use shuli::crypto::owe::{find_owe_dh_element, OweAuth};
use shuli::crypto::sae::{
    build_commit_auth_data, build_commit_auth_data_with_id, compute_pwe_h2e,
    compute_pwe_h2e_with_id, compute_pwe_hnp, parse_anti_clogging_token, SaeAuth,
};
use shuli::ieee80211::eapol;
use shuli::{ErrorKind, WifiError};

fn hex(s: &str) -> Vec<u8> {
    (0..s.len() / 2)
        .map(|i| u8::from_str_radix(&s[2 * i..2 * i + 2], 16).unwrap())
        .collect()
}

/// Wrap a key by RFC 3394.
fn wrapped(kek: &[u8; 16], plain: &[u8]) -> Vec<u8> {
    shuli::wpa3::handshake4::aes_key_wrap(kek, plain).unwrap()
}

#[test]
fn test_basic_kdf() {
    let key = [0x01u8; 32];
    let ctx = [0x02u8; 8];
    let result = kdf(&key, "Test Label", &ctx, 32);
    assert_eq!(result.len(), 32);
    let result2 = kdf(&key, "Test Label", &ctx, 32);
    assert_eq!(result, result2);
}

#[test]
fn test_hkdf_extract() {
    let prk = hkdf_extract_sha256(b"salt", b"ikm");
    assert_eq!(prk.len(), 32);
}

#[test]
fn test_hkdf_expand() {
    let prk = hkdf_extract_sha256(b"salt", b"ikm");
    let mut okm = [0u8; 48];
    hkdf_expand(&prk, b"test label", &mut okm);
    assert_eq!(okm.len(), 48);
}

#[test]
fn kdf_values() {
    let ctx = [0x02u8; 8];
    assert_eq!(
        kdf(&[0x01u8; 32], "Test Label", &ctx, 32),
        hex("3528c59c05886c8889f19fdd482e5d1f41ed21e009df025dbddc62b418c1a4f0")
    );
    assert_eq!(
        kdf(&[0x01u8; 32], "Test Label", &ctx, 40),
        hex("940a3a89baee9a0a644bce04aec61981b84fe31a543dfce22cfa8f49cdd080f3defe44299f02ffed")
    );
}

#[test]
fn hkdf_values() {
    let prk = hkdf_extract_sha256(b"salt", b"ikm");
    assert_eq!(
        prk.to_vec(),
        hex("6c1a16bbfd2d010d2b2508af08a0cfb6a6f8445e71e209e4daabbe6d1bebf402")
    );
    let mut okm = [0u8; 48];
    hkdf_expand(&prk, b"test label", &mut okm);
    assert_eq!(
        okm.to_vec(),
        hex(
            "604ffc1d97e200d9385e62c4505563cab59fbf8e47d68772f16ddebeedbc7b8399cc7240cb2e0569c87433cda175eb67"
        )
    );
}

#[test]
fn prf_sha1_value() {
    assert_eq!(
        prf_sha1(&[0x0bu8; 20], "prefix", b"Hi There", 64),
        hex(
            "bcd4c650b30b9684951829e0d75f9d54b862175ed9f00606e17d8da35402ffee75df78c3d31e0f889f012120c0862beb67753e7439ae242edb8373698356cf5a"
        )
    );
}

#[test]
fn psk_of_a_passphrase() {
    assert_eq!(
        pbkdf2_pmk("password", "IEEE").to_vec(),
        hex("f42c6fc52df0ebef9ebb4b90b38a5f902e83fe1b135a70e23aed762e9710a12e")
    );
}

#[test]
fn pmkids_and_mics() {
    let (aa, spa, pmk) = ([1u8; 6], [2u8; 6], [3u8; 32]);
    assert_eq!(pmkid_sha1(&pmk, &aa, &spa).to_vec(), hex("648c60ec67d9dc8e7739aa4193481577"));
    assert_eq!(pmkid_sha256(&pmk, &aa, &spa).to_vec(), hex("816f444b74bdeb934feef3b94d357d47"));
    let kck = [0xAAu8; 16];
    let data = b"some eapol pdu bytes";
    assert_eq!(hmac_sha256_mic(&kck, data).to_vec(), hex("1857a7c08360fc1421426e9948319948"));
    assert_eq!(hmac_sha1_mic(&kck, data).to_vec(), hex("6515fcaceb0615e88cd66b4623345adb"));
    assert_eq!(compute_mic(MicAlg::HmacSha1, &kck, data).unwrap(), hmac_sha1_mic(&kck, data));
    assert_eq!(compute_mic(MicAlg::HmacSha256, &kck, data).unwrap(), hmac_sha256_mic(&kck, data));
    assert_eq!(compute_mic(MicAlg::AesCmac, &kck, data).unwrap(), aes_cmac(&kck, data).unwrap());
}

#[test]
fn cmac_of_one_block() {
    let key: [u8; 16] = hex("2b7e151628aed2a6abf7158809cf4f3c").try_into().unwrap();
    let block = hex("6bc1bee22e409f96e93d7e117393172a");
    assert_eq!(aes_cmac(&key, &block).unwrap().to_vec(), hex("070a16b46b4d4144f79bdd9dd04a287c"));
}

#[test]
fn key_unwrap_value_and_errors() {
    let kek: [u8; 16] = hex("000102030405060708090a0b0c0d0e0f").try_into().unwrap();
    let wrapped = hex("1fa68b0a8112b447aef34bd8fb5a7b829d3e862371d2cfe5");
    assert_eq!(
        aes_key_unwrap(&kek, &wrapped).unwrap(),
        hex("00112233445566778899aabbccddeeff")
    );
    let mut broken = wrapped.clone();
    broken[0] ^= 1;
    assert_eq!(aes_key_unwrap(&kek, &broken).unwrap_err().kind, ErrorKind::HandshakeFailed);
    assert_eq!(aes_key_unwrap(&kek, &wrapped[..7]).unwrap_err().kind, ErrorKind::HandshakeFailed);
}

fn fourway(alg: MicAlg) -> FourWayState {
    FourWayState::with_snonce(
        &[0x01u8; 32],
        alg,
        [0x03u8; 6],
        [0x04u8; 6],
        vec![48, 2, 1, 0],
        Vec::new(),
        Vec::new(),
        None,
        [0x06u8; 32],
    )
}

#[test]
fn pairwise_keys_by_algorithm() {
    let mut s = fourway(MicAlg::HmacSha1);
    s.process_message_1_with(&[0x05u8; 32], 1, 0x008a, [0x06u8; 32]).unwrap();
    let ptk = hex(
        "fd2ebae809a0d92ec5510927ab47191578e69a4cf7031bd56823897646e141c70d19c12127821075b2493152f57ab6b2",
    );
    assert_eq!(s.kck().unwrap().to_vec(), ptk[..16].to_vec());
    assert_eq!(s.kek().unwrap().to_vec(), ptk[16..32].to_vec());
    assert_eq!(s.tk().unwrap().to_vec(), ptk[32..48].to_vec());
    let mut s = fourway(MicAlg::AesCmac);
    s.process_message_1_with(&[0x05u8; 32], 1, 0x0088, [0x06u8; 32]).unwrap();
    assert_eq!(s.kck().unwrap().to_vec(), hex("3fb44d9fb0c08dd57c7d353c882a0f5e"));
}

/// Message 3 of an AP that knows the keys of `s`.
fn message_3(s: &FourWayState, counter: u64, key_data: &[u8], nonce: &[u8; 32]) -> Vec<u8> {
    let info = eapol::KEY_INFO_PAIRWISE
        | eapol::KEY_INFO_INSTALL
        | eapol::KEY_INFO_ACK
        | eapol::KEY_INFO_MIC
        | eapol::KEY_INFO_SECURE
        | eapol::KEY_INFO_ENCRYPTED_DATA
        | s.desc_version;
    let data = wrapped(&s.kek().unwrap(), key_data);
    let pdu = eapol::build_eapol_key_pdu(
        info, 16, counter, nonce, &[0u8; 16], &[0u8; 8], &[0u8; 8], &[0u8; 16], &data,
    );
    seal(s.mic_alg, &s.kck().unwrap(), pdu).unwrap()
}

/// Key data with a GTK of index 2, padded.
fn gtk_data() -> Vec<u8> {
    let mut d = vec![0xdd, 22, 0x00, 0x0f, 0xac, 0x01, 0x02, 0x00];
    d.extend_from_slice(&[0x77u8; 16]);
    d
}

#[test]
fn four_way_handshake_runs_for_every_algorithm() {
    for alg in [MicAlg::AesCmac, MicAlg::HmacSha256, MicAlg::HmacSha1] {
        let mut s = fourway(alg);
        let msg2 = s.process_message_1_with(&[0x05u8; 32], 1, 0x008a, [0x06u8; 32]).unwrap();
        let parsed = eapol::parse_eapol_key_frame(&msg2).unwrap();
        assert_eq!(parsed.key_nonce, [0x06u8; 32]);
        assert_eq!(parsed.key_data, vec![48, 2, 1, 0]);
        let mic = compute_mic(alg, &s.kck().unwrap(), &eapol::pdu_with_zeroed_mic(&msg2)).unwrap();
        assert_eq!(parsed.key_mic, mic);

        let msg3 = message_3(&s, 2, &gtk_data(), &[0x05u8; 32]);
        let frame = eapol::parse_eapol_key_frame(&msg3).unwrap();
        let (msg4, kdes) = s.process_message_3(&frame).unwrap();
        assert_eq!(kdes.gtk, Some((2, vec![0x77u8; 16])));
        assert_eq!(s.gtk(), Some(&[0x77u8; 16][..]));
        assert_eq!(s.gtk_index(), 2);
        let parsed = eapol::parse_eapol_key_frame(&msg4).unwrap();
        assert!(parsed.is_secure() && parsed.has_mic() && !parsed.has_ack());
        assert_eq!(parsed.replay_counter, 2);
    }
}

#[test]
fn message_3_with_a_wrong_mic_is_refused() {
    let mut s = fourway(MicAlg::HmacSha1);
    s.process_message_1_with(&[0x05u8; 32], 1, 0x008a, [0x06u8; 32]).unwrap();
    let mut msg3 = message_3(&s, 2, &gtk_data(), &[0x05u8; 32]);
    msg3[81] ^= 1;
    let frame = eapol::parse_eapol_key_frame(&msg3).unwrap();
    let e = s.process_message_3(&frame).unwrap_err();
    assert_eq!(e.kind, ErrorKind::HandshakeFailed);
    assert_eq!(e.msg, "MIC mismatch");
    assert!(s.gtk().is_none());
}

#[test]
fn message_3_with_an_old_counter_is_refused() {
    let mut s = fourway(MicAlg::HmacSha1);
    s.process_message_1_with(&[0x05u8; 32], 5, 0x008a, [0x06u8; 32]).unwrap();
    let msg3 = message_3(&s, 4, &gtk_data(), &[0x05u8; 32]);
    let frame = eapol::parse_eapol_key_frame(&msg3).unwrap();
    assert_eq!(s.process_message_3(&frame).unwrap_err().kind, ErrorKind::HandshakeFailed);
}

#[test]
fn message_3_with_another_rsne_is_refused() {
    let mut s = fourway(MicAlg::HmacSha1);
    s.ap_rsne = vec![48, 2, 1, 0];
    s.process_message_1_with(&[0x05u8; 32], 1, 0x008a, [0x06u8; 32]).unwrap();
    let mut data = vec![48, 2, 2, 0];
    data.extend_from_slice(&gtk_data());
    data.extend_from_slice(&[0xdd, 0, 0, 0]);
    let msg3 = message_3(&s, 2, &data, &[0x05u8; 32]);
    let frame = eapol::parse_eapol_key_frame(&msg3).unwrap();
    assert_eq!(s.process_message_3(&frame).unwrap_err().kind, ErrorKind::HandshakeFailed);
}

#[test]
fn group_rekey_replaces_the_group_key() {
    let mut s = fourway(MicAlg::HmacSha256);
    s.process_message_1_with(&[0x05u8; 32], 1, 0x0088, [0x06u8; 32]).unwrap();
    let info = eapol::KEY_INFO_ACK
        | eapol::KEY_INFO_MIC
        | eapol::KEY_INFO_SECURE
        | eapol::KEY_INFO_ENCRYPTED_DATA;
    let data = wrapped(&s.kek().unwrap(), &gtk_data());
    let pdu = eapol::build_eapol_key_pdu(
        info, 16, 3, &[0u8; 32], &[0u8; 16], &[4u8; 8], &[0u8; 8], &[0u8; 16], &data,
    );
    let sealed = seal(s.mic_alg, &s.kck().unwrap(), pdu).unwrap();
    let frame = eapol::parse_eapol_key_frame(&sealed).unwrap();
    let reply = s.process_group_rekey(&frame).unwrap();
    assert_eq!(s.gtk(), Some(&[0x77u8; 16][..]));
    assert_eq!(eapol::parse_eapol_key_frame(&reply).unwrap().key_rsc, [4u8; 8]);
    // The same frame again is a replay.
    assert!(s.process_group_rekey(&frame).is_err());
}

#[test]
fn key_data_elements_are_told_apart() {
    let mut data = vec![0xdd, 0x05, 0x50, 0x6f, 0x9a, 0x20, 0x09];
    data.extend_from_slice(&[0xdd, 28, 0x00, 0x0f, 0xac, 0x09, 4, 0, 1, 2, 3, 4, 5, 6]);
    data.extend_from_slice(&[0x55u8; 16]);
    data.extend_from_slice(&[48, 2, 1, 0, 244, 1, 0x20]);
    let kdes = parse_key_data_kdes(&data);
    assert_eq!(kdes.transition_disable, Some(9));
    let igtk = kdes.igtk.unwrap();
    assert_eq!((igtk.key_index, igtk.ipn, igtk.key), (4, [1, 2, 3, 4, 5, 6], vec![0x55u8; 16]));
    assert_eq!(kdes.rsne, Some(vec![48, 2, 1, 0]));
    assert_eq!(kdes.rsnxe, Some(vec![244, 1, 0x20]));
    assert!(kdes.gtk.is_none() && kdes.bigtk.is_none());
}

#[test]
fn ft_key_hierarchy_values() {
    let r0 = derive_pmk_r0(&[0x11u8; 32], "ft-net", [0xa1, 0xb2], b"nas1", [2, 0, 0, 0, 0, 1]);
    assert_eq!(
        r0.key.to_vec(),
        hex("c9aaaf5a131574f8f5ea63068a760328a1fadecc0cb907ba544a862116d6f2ee")
    );
    assert_eq!(r0.name.to_vec(), hex("32ce872f900948abde6ab8e644457f9c"));
    let r1 = derive_pmk_r1(&r0, [2, 0, 0, 0, 1, 0], [2, 0, 0, 0, 0, 1]);
    assert_eq!(
        r1.key.to_vec(),
        hex("6d1276e596fee60bda9f98dc776aea312e8e0074d71deb026defc733c1795206")
    );
    assert_eq!(r1.name.to_vec(), hex("ba8e7f13666f811f5a67ff808d772480"));
    let ptk = derive_ft_ptk(&r1, &[6u8; 32], &[5u8; 32], [4u8; 6], [3u8; 6]);
    assert_eq!(
        ptk.to_vec(),
        hex(
            "063388717861a1d088b2538df8352b2ac7e2d5c15427987ace10e219aa2c692e64241eb3f4be9b21320ce7748036fc5c"
        )
    );
}

#[test]
fn ft_mic_covers_addresses_sequence_and_elements() {
    let kck = [9u8; 16];
    let mut data = vec![1u8; 6];
    data.extend_from_slice(&[2u8; 6]);
    data.push(5);
    data.extend_from_slice(b"ies");
    assert_eq!(
        ft_mic(&kck, [1u8; 6], [2u8; 6], 5, b"ies").unwrap(),
        aes_cmac(&kck, &data).unwrap()
    );
}

#[test]
fn ft_group_key_is_unwrapped() {
    let kek = [8u8; 16];
    let sub = shuli::ieee80211::elements::FtKeySubelem {
        key_index: 1,
        rsc: vec![0u8; 8],
        wrapped_key: wrapped(&kek, &[0x42u8; 16]),
    };
    let key = shuli::ieee80211::elements::unwrap_ft_key(&kek, &sub).unwrap();
    assert_eq!(key, vec![0x42u8; 16]);
    assert_eq!(key.len() + 8, sub.wrapped_key.len());
}

#[test]
fn key_wrap_crate_agrees_with_the_library() {
    let kek = [0xCCu8; 16];
    let kw = <KwAes128 as aes_kw::KeyInit>::new(&kek.into());
    let mut buf = [0u8; 24];
    kw.wrap_key(&[0xDDu8; 16], &mut buf).unwrap();
    assert_eq!(wrapped(&kek, &[0xDDu8; 16]), buf.to_vec());
    assert_eq!(aes_key_unwrap(&kek, &buf).unwrap(), vec![0xDDu8; 16]);
}

const STA: [u8; 6] = [0x02, 0x00, 0x00, 0x00, 0x00, 0x00];
const AP: [u8; 6] = [0x02, 0x00, 0x00, 0x00, 0x01, 0x00];

/// One exchange between a station and an AP.
fn exchange(sta_pw: &str, ap_pw: &str, h2e: bool) -> Result<(SaeAuth, SaeAuth), WifiError> {
    let mut sta = SaeAuth::new(sta_pw, "Test-WIFI", STA, AP, h2e, false)?;
    let mut ap = SaeAuth::new(ap_pw, "Test-WIFI", AP, STA, h2e, false)?;
    let (s1, e1) = sta.build_commit()?;
    let (s2, e2) = ap.build_commit()?;
    let c1 = sta.process_commit(&s2, &e2)?;
    let c2 = ap.process_commit(&s1, &e1)?;
    let mut b1 = vec![1u8, 0u8];
    b1.extend_from_slice(&c1);
    let mut b2 = vec![1u8, 0u8];
    b2.extend_from_slice(&c2);
    ap.process_confirm(&b1)?;
    sta.process_confirm(&b2)?;
    Ok((sta, ap))
}

#[test]
fn sae_agrees_on_both_sides() {
    for h2e in [true, false] {
        let (sta, ap) = exchange("12345678", "12345678", h2e).unwrap();
        assert!(sta.confirmed() && ap.confirmed());
        assert!(sta.pmk().is_some());
        assert_eq!(sta.pmk(), ap.pmk());
        assert_eq!(sta.pmkid(), ap.pmkid());
        assert_eq!(sta.group_id(), 19);
        assert_eq!(sta.is_h2e(), h2e);
    }
}

#[test]
fn sae_refuses_another_password() {
    let e = exchange("12345678", "wrong_password", true).unwrap_err();
    assert_eq!(e.kind, ErrorKind::SaeFailed);
}

#[test]
fn password_elements_are_symmetric_in_the_addresses() {
    let a = compute_pwe_h2e("12345678", "Test-WIFI", &STA, &AP).unwrap();
    let b = compute_pwe_h2e("12345678", "Test-WIFI", &AP, &STA).unwrap();
    assert!(!a.is_identity());
    assert_eq!(a.to_x_y(), b.to_x_y());
    let c = compute_pwe_hnp("12345678", "Test-WIFI", &STA, &AP).unwrap();
    let d = compute_pwe_hnp("12345678", "Test-WIFI", &AP, &STA).unwrap();
    assert_eq!(c.to_x_y(), d.to_x_y());
    assert_ne!(a.to_x_y(), c.to_x_y());
}

#[test]
fn malformed_commits_are_refused() {
    let mut sta = SaeAuth::new("12345678", "Test-WIFI", STA, AP, true, false).unwrap();
    let (_, e) = sta.build_commit().unwrap();
    assert_eq!(sta.process_commit(&[0u8; 32], &e).unwrap_err().kind, ErrorKind::SaeFailed);
    assert_eq!(sta.process_commit(&[1u8; 31], &e).unwrap_err().kind, ErrorKind::SaeFailed);
    let mut off = e.clone();
    off[63] ^= 1;
    assert_eq!(sta.process_commit(&[1u8; 32], &off).unwrap_err().kind, ErrorKind::SaeFailed);
}

#[test]
fn anti_clogging_token_comes_back() {
    // Status 76 with H2E: group, then an extension element with the token.
    let mut payload = vec![19, 0, 255, 5, 93];
    payload.extend_from_slice(&[1, 2, 3, 4]);
    let token = parse_anti_clogging_token(true, &payload).unwrap();
    assert_eq!(token, vec![1, 2, 3, 4]);
    let data = build_commit_auth_data(true, 19, &[7u8; 32], &[8u8; 64], Some(&token));
    assert!(data.ends_with(&[255, 5, 93, 1, 2, 3, 4]));
    assert_eq!(parse_anti_clogging_token(false, &[19, 0, 9, 9]).unwrap(), vec![9, 9]);
    assert_eq!(parse_anti_clogging_token(true, &[19]).unwrap_err().kind, ErrorKind::SaeFailed);
}

#[test]
fn owe_agrees_on_both_sides() {
    let mut a = OweAuth::with_secret([5u8; 32]);
    let mut b = OweAuth::with_secret([6u8; 32]);
    let ea = a.build_dh_element();
    let eb = b.build_dh_element();
    assert_eq!(&ea[..5], &[255, 35, 32, 19, 0]);
    let mut ies = vec![0, 1, b'x'];
    ies.extend_from_slice(&eb);
    a.process_ap_dh_element(find_owe_dh_element(&ies).unwrap()).unwrap();
    b.process_ap_dh_element(&ea[3..]).unwrap();
    assert!(a.pmk().is_some() && b.pmk().is_some());
    assert_ne!(a.pmk(), Some([0u8; 32]));
    assert_ne!(a.pmkid(), b.pmkid());
    assert!(find_owe_dh_element(&[0, 1, b'x']).is_none());
}

#[test]
fn owe_refuses_what_is_no_public_key() {
    let mut a = OweAuth::new().unwrap();
    let e = a.process_ap_dh_element(&[19, 0]).unwrap_err();
    assert_eq!(e.kind, ErrorKind::AuthFailed);
    assert_eq!(e.msg, "OWE DH element too short: 2 bytes");
    let mut dh = vec![20, 0];
    dh.extend_from_slice(&[1u8; 32]);
    assert_eq!(a.process_ap_dh_element(&dh).unwrap_err().msg, "unsupported OWE group 20");
    let mut dh = vec![19, 0];
    dh.extend_from_slice(&[0xffu8; 32]);
    assert!(a.process_ap_dh_element(&dh).unwrap_err().msg.starts_with("invalid OWE AP public key"));
}

#[test]
fn channel_validation() {
    // OCI KDE for channel 6 in operating class 81.
    let good = [0xdd, 7, 0x00, 0x0f, 0xac, 13, 81, 6, 0];
    assert!(verify_oci(&good, 2437).is_ok());
    assert_eq!(verify_oci(&good, 2412).unwrap_err().kind, ErrorKind::HandshakeFailed);
    assert_eq!(verify_oci(&[], 2437).unwrap_err().kind, ErrorKind::HandshakeFailed);
}

#[test]
fn four_way_states_start_from_their_inputs() {
    let rsne = vec![48, 0];
    let s = FourWayState::new_with_ap_ies(
        &[1u8; 32],
        MicAlg::HmacSha256,
        [2u8; 6],
        [3u8; 6],
        rsne.clone(),
        vec![48, 1, 0],
        vec![244, 1, 0x20],
    )
    .unwrap();
    assert_eq!(s.pmk, [1u8; 32]);
    assert_eq!(s.ap_rsne, vec![48, 1, 0]);
    assert_eq!(s.ap_rsnxe, vec![244, 1, 0x20]);
    assert!(s.ft_pmk_r1.is_none());
    let r1 = PmkR1 { key: [4u8; 32], name: [5u8; 16] };
    let a = FourWayState::new_ft(r1, [2u8; 6], [3u8; 6], rsne.clone(), rsne.clone(), vec![])
        .unwrap();
    assert_eq!(a.mic_alg, MicAlg::AesCmac);
    assert_eq!(a.ft_pmk_r1.map(|r| r.key), Some([4u8; 32]));
    let b = FourWayState::new_ft(r1, [2u8; 6], [3u8; 6], rsne.clone(), rsne, vec![]).unwrap();
    assert_ne!(a.snonce, b.snonce);
}

#[test]
fn password_identifier_changes_the_password_element() {
    let plain = compute_pwe_h2e("12345678", "Test-WIFI", &STA, &AP).unwrap();
    let with = |id| compute_pwe_h2e_with_id("12345678", "Test-WIFI", &STA, &AP, id).unwrap();
    assert_eq!(with(None).to_x_y(), plain.to_x_y());
    assert_ne!(with(Some("id")).to_x_y(), plain.to_x_y());
    // The identifier follows the password.
    let joined = compute_pwe_h2e("12345678id", "Test-WIFI", &STA, &AP).unwrap();
    assert_eq!(with(Some("id")).to_x_y(), joined.to_x_y());
    let data =
        build_commit_auth_data_with_id(true, 19, &[7u8; 32], &[8u8; 64], Some(b"id"), Some(&[9]));
    assert!(data.ends_with(&[255, 3, 33, b'i', b'd', 255, 2, 93, 9]));
}

/// A handshake that has seen Message 1, under HMAC-SHA1.
fn after_message_1(ap_rsne: &[u8]) -> FourWayState {
    let mut s = FourWayState::with_snonce(
        &[1u8; 32],
        MicAlg::HmacSha1,
        STA,
        AP,
        vec![48, 2, 1, 0],
        ap_rsne.to_vec(),
        vec![],
        None,
        [6u8; 32],
    );
    s.process_message_1_with(&[5u8; 32], 1, 2, [6u8; 32]).unwrap();
    s
}

/// A Message 3 or group key message with unencrypted key data.
fn authenticated(s: &FourWayState, counter: u64, key_data: &[u8]) -> eapol::EapolKeyFrame {
    let info = eapol::KEY_INFO_MIC | eapol::KEY_INFO_SECURE | eapol::KEY_INFO_ACK
        | eapol::KEY_INFO_PAIRWISE | 2;
    let pdu = eapol::build_eapol_key_pdu(
        info, 16, counter, &[5u8; 32], &[0u8; 16], &[0u8; 8], &[0u8; 8], &[0u8; 16], key_data,
    );
    let pdu = seal(MicAlg::HmacSha1, &s.kck().unwrap(), pdu).unwrap();
    eapol::parse_eapol_key_frame(&pdu).unwrap()
}

#[test]
fn message_3_without_key_data_needs_no_recorded_rsne() {
    let mut s = after_message_1(&[]);
    let frame = authenticated(&s, 2, &[]);
    let (_, kdes) = s.process_message_3(&frame).unwrap();
    assert_eq!(kdes.gtk, None);
    let mut s = after_message_1(&[48, 1, 9]);
    let frame = authenticated(&s, 2, &[]);
    let e = s.process_message_3(&frame).unwrap_err();
    assert_eq!(e.kind, ErrorKind::HandshakeFailed);
    assert_eq!(e.msg, "Message 3 key data carries no RSNE");
    let frame = authenticated(&s, 3, &[48, 1, 9]);
    assert!(s.process_message_3(&frame).is_ok());
    let frame = authenticated(&s, 4, &[48, 1, 8]);
    assert!(s.process_message_3(&frame).unwrap_err().msg.starts_with("RSNE downgrade detected"));
}

#[test]
fn message_3_is_taken_under_a_given_mic() {
    let mut s = after_message_1(&[]);
    let frame = authenticated(&s, 2, &[0xdd, 7, 0, 0x0f, 0xac, 1, 1, 0, 9]);
    assert_eq!(s.take_message_3(&frame, &[0u8; 16]).unwrap_err().msg, "MIC mismatch");
    let kdes = s.take_message_3(&frame, &frame.key_mic).unwrap();
    assert_eq!(kdes.gtk, Some((1, vec![9])));
    assert_eq!(s.gtk(), Some(&[9u8][..]));
    let frame = authenticated(&s, 3, &[0xdd, 7, 0, 0x0f, 0xac, 1, 2, 0, 8]);
    assert_eq!(s.take_group_key(&frame, &[0u8; 16]).unwrap_err().msg, "group rekey MIC mismatch");
    let frame = authenticated(&s, 4, &[0xdd, 7, 0, 0x0f, 0xac, 1, 2, 0, 8]);
    s.take_group_key(&frame, &frame.key_mic).unwrap();
    assert_eq!((s.gtk_index(), s.gtk()), (2, Some(&[8u8][..])));
    let pdu = s.prepare_message_2(&[5u8; 32], 7, 2, [4u8; 32]);
    let parsed = eapol::parse_eapol_key_frame(&pdu).unwrap();
    assert_eq!((parsed.key_nonce, parsed.key_mic), ([4u8; 32], [0u8; 16]));
}

#[test]
fn channel_validation_in_the_handshake() {
    let oci = [0xdd, 7, 0x00, 0x0f, 0xac, 13, 81, 6, 0];
    let other = [0xdd, 7, 0x00, 0x0f, 0xac, 13, 81, 1, 0];
    let gtk = [0xdd, 7, 0, 0x0f, 0xac, 1, 1, 0, 9];
    let mut s = after_message_1(&[]);
    s.set_ocv(true, [81, 6, 0], 2437);
    let msg2 = s.process_message_1_with(&[5u8; 32], 1, 2, [6u8; 32]).unwrap();
    let mut expected = vec![48, 2, 1, 0];
    expected.extend_from_slice(&oci);
    assert_eq!(eapol::parse_eapol_key_frame(&msg2).unwrap().key_data, expected);
    let frame = authenticated(&s, 2, &[]);
    assert_eq!(
        s.process_message_3(&frame).unwrap_err().msg,
        "OCV: AP Message 3 carries no OCI KDE"
    );
    let frame = authenticated(&s, 3, &other);
    assert_eq!(
        s.process_message_3(&frame).unwrap_err().msg,
        "OCV: AP OCI [51, 01, 00] does not match freq 2437"
    );
    let frame = authenticated(&s, 4, &oci);
    assert!(s.process_message_3(&frame).is_ok());
    let frame = authenticated(&s, 5, &gtk);
    assert_eq!(
        s.process_group_rekey(&frame).unwrap_err().msg,
        "OCV: AP Message 3 carries no OCI KDE"
    );
    let mut both = gtk.to_vec();
    both.extend_from_slice(&oci);
    let frame = authenticated(&s, 6, &both);
    assert!(s.process_group_rekey(&frame).is_ok());
    // Off again, nothing is asked for.
    s.set_ocv(false, [0u8; 3], 0);
    let frame = authenticated(&s, 7, &gtk);
    assert!(s.process_group_rekey(&frame).is_ok());
}

#[test]
fn extended_key_id_in_the_handshake() {
    let kde = [0xdd, 6, 0x00, 0x0f, 0xac, 10, 1, 0];
    let mut s = after_message_1(&[]);
    // Nobody asked for it: ignored.
    let frame = authenticated(&s, 2, &kde);
    let (_, kdes) = s.process_message_3(&frame).unwrap();
    assert_eq!((kdes.key_id, kdes.bigtk, s.key_id()), (Some(1), None, None));
    s.set_ext_key_id(true);
    let frame = authenticated(&s, 3, &[]);
    assert_eq!(
        s.process_message_3(&frame).unwrap_err().msg,
        "Extended Key ID: AP Message 3 carries no Key ID KDE"
    );
    let frame = authenticated(&s, 4, &kde);
    s.process_message_3(&frame).unwrap();
    assert_eq!(s.key_id(), Some(1));
    // A KDE of the same type that is long enough is a BIGTK.
    let mut bigtk = vec![0xdd, 28, 0x00, 0x0f, 0xac, 10, 6, 0, 1, 2, 3, 4, 5, 6];
    bigtk.extend_from_slice(&[7u8; 16]);
    let kdes = parse_key_data_kdes(&bigtk);
    assert_eq!((kdes.key_id, kdes.bigtk.unwrap().key_index), (None, 6));
}
