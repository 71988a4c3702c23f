use std::sync::Arc;

use shuli::auth::{is_temporary_reject_status, AuthAction, AuthMethod};
use shuli::eap::{EapAction, EapMethod, EapPacket, EapPeer};
use shuli::eap_tls::{
    build_tls_message, cert_from_pem, client_config, key_from_pem, parse_tls_message, EapTlsMethod,
};
use shuli::{ErrorKind, WifiError};
use rustls::pki_types::CertificateDer;
use rustls::server::WebPkiClientVerifier;
use rustls::{RootCertStore, ServerConfig, ServerConnection};

const CA: &[&str] = &[
    "MIIBVjCB/aADAgECAgEBMAoGCCqGSM49BAMCMBIxEDAOBgNVBAMMB1Rlc3QgQ0Ew",
    "IBcNMDAwMTAxMDAwMDAwWhgPMjA5OTEyMzEyMzU5NTlaMBIxEDAOBgNVBAMMB1Rl",
    "c3QgQ0EwWTATBgcqhkjOPQIBBggqhkjOPQMBBwNCAAS0kFUQdEWBmdZZlG2EAG6F",
    "Qf/l9JtOqp8O9wL2GeNSmy1IhEH8TI1fu3wNAKW0rUhBmSAwl9rrRHacknQjVjVU",
    "o0IwQDAPBgNVHRMBAf8EBTADAQH/MA4GA1UdDwEB/wQEAwICBDAdBgNVHQ4EFgQU",
    "AxhNh1WE/3I4E2j2YxIWo0ZhjPMwCgYIKoZIzj0EAwIDSAAwRQIgSYB3BnO2eZzK",
    "auHiu9cc5na9vBNXjhyB4xuAaY2pa9YCIQCZob7vTGcJoylkWKHdjSNMnXJyovkz",
    "OUPdET4D6j98og==",
];

const CERT: &[&str] = &[
    "MIIBUzCB+qADAgECAgEDMAoGCCqGSM49BAMCMBIxEDAOBgNVBAMMB1Rlc3QgQ0Ew",
    "IBcNMDAwMTAxMDAwMDAwWhgPMjA5OTEyMzEyMzU5NTlaMA8xDTALBgNVBAMMBHVz",
    "ZXIwWTATBgcqhkjOPQIBBggqhkjOPQMBBwNCAAQ7fgTvI/Yd6fhZO/nrd5kHIzFR",
    "IsLKtP0G38BtGIqxf1JsGxDZoHRYIR0O1ny+5VSVVW5vxsnhtS1mFc2x8Tg1o0Iw",
    "QDAdBgNVHQ4EFgQUzP3CBixJg+7fBMfyejUs7JayPf4wHwYDVR0jBBgwFoAUAxhN",
    "h1WE/3I4E2j2YxIWo0ZhjPMwCgYIKoZIzj0EAwIDSAAwRQIhALB21nyXkN0EM9zZ",
    "xQs9MadwS9YwQefo8/9dysKBgzHGAiBG+4FtQHaeJmjEGsuAo1qHVaSWZK+AW/lW",
    "CSzO7WrrGA==",
];

const KEY: &[&str] = &[
    "MIGHAgEAMBMGByqGSM49AgEGCCqGSM49AwEHBG0wawIBAQQgvVogxV18itNav08Q",
    "fvWOdV3sHLkUDF1OYVaN/nobkImhRANCAAQ7fgTvI/Yd6fhZO/nrd5kHIzFRIsLK",
    "tP0G38BtGIqxf1JsGxDZoHRYIR0O1ny+5VSVVW5vxsnhtS1mFc2x8Tg1",
];

const SERVER_CERT: &[&str] = &[
    "MIIBdDCCARugAwIBAgIBAjAKBggqhkjOPQQDAjASMRAwDgYDVQQDDAdUZXN0IENB",
    "MCAXDTAwMDEwMTAwMDAwMFoYDzIwOTkxMjMxMjM1OTU5WjARMQ8wDQYDVQQDDAZy",
    "YWRpdXMwWTATBgcqhkjOPQIBBggqhkjOPQMBBwNCAARgXONpROvruIhVQG0UHr3S",
    "fxBHlt8mYn/8IliXppxUlNi9doIj7tcF+FCcOb0tT0RGUdVnc5wm/FkWS5zHSSs4",
    "o2EwXzAdBgNVHREEFjAUghJyYWRpdXMuZXhhbXBsZS5vcmcwHQYDVR0OBBYEFH5x",
    "7Nbo+UEgBjlYE2tali3crRDKMB8GA1UdIwQYMBaAFAMYTYdVhP9yOBNo9mMSFqNG",
    "YYzzMAoGCCqGSM49BAMCA0cAMEQCIBXLqr8/5G9puGg+jjF9Nb40OLMklnfU2Vv7",
    "TScb3XngAiAiBn3eQjS1maT5AWr4RYXhiIVY97CkxR3AMPPZrxnmCQ==",
];

const SERVER_KEY: &[&str] = &[
    "MIGHAgEAMBMGByqGSM49AgEGCCqGSM49AwEHBG0wawIBAQQg5CoFH7IwKY01jERc",
    "s+ncSF9g7QPv64m4VerG+LqiermhRANCAARgXONpROvruIhVQG0UHr3SfxBHlt8m",
    "Yn/8IliXppxUlNi9doIj7tcF+FCcOb0tT0RGUdVnc5wm/FkWS5zHSSs4",
];

/// PEM of a kind from its lines.
fn pem(kind: &str, lines: &[&str]) -> String {
    let mut out = format!("-----BEGIN {kind}-----\n");
    for line in lines {
        out.push_str(line);
        out.push('\n');
    }
    out.push_str(&format!("-----END {kind}-----\n"));
    out
}

fn tls_method(server_name: &str) -> Result<EapTlsMethod, WifiError> {
    let ca = cert_from_pem(&pem("CERTIFICATE", CA))?;
    let cert = cert_from_pem(&pem("CERTIFICATE", CERT))?;
    let key = key_from_pem(&pem("PRIVATE KEY", KEY))?;
    let config = client_config(&vec![ca], vec![cert], key)?;
    EapTlsMethod::new(Arc::clone(&config), server_name)
}

#[test]
fn packets_roundtrip() {
    let pdu = EapPacket::build(2, 9, Some(1), b"user");
    assert_eq!(pdu, vec![2, 9, 0, 9, 1, b'u', b's', b'e', b'r']);
    let p = EapPacket::parse(&pdu).unwrap();
    assert_eq!((p.code, p.identifier, p.type_, p.body.as_slice()), (2, 9, Some(1), &b"user"[..]));
    assert!(EapPacket::parse(&[3, 1, 0, 4]).unwrap().is_success());
    assert!(EapPacket::parse(&[4, 1, 0, 4]).unwrap().is_failure());
    assert!(EapPacket::parse(&[3, 1, 0]).is_none());
    assert!(EapPacket::parse(&[1, 1, 0, 9, 1]).is_none());
}

#[test]
fn identity_notification_and_nak() {
    let mut peer: EapPeer<EapTlsMethod> = EapPeer::new("user@example.org".to_string());
    let identity = EapPacket::parse(&EapPacket::build(1, 3, Some(1), &[])).unwrap();
    assert_eq!(
        peer.handle_packet(&identity).unwrap(),
        EapAction::Respond(EapPacket::build(2, 3, Some(1), b"user@example.org"))
    );
    let notification = EapPacket::parse(&EapPacket::build(1, 4, Some(2), b"hi")).unwrap();
    assert_eq!(
        peer.handle_packet(&notification).unwrap(),
        EapAction::Respond(EapPacket::build(2, 4, Some(2), &[]))
    );
    // No method yet: any method type is answered with a Nak.
    let md5 = EapPacket::parse(&EapPacket::build(1, 5, Some(4), &[])).unwrap();
    match peer.handle_packet(&md5).unwrap() {
        EapAction::Respond(pdu) => assert_eq!(EapPacket::parse(&pdu).unwrap().type_, Some(3)),
        other => panic!("{other:?}"),
    }
}

#[test]
fn results_and_malformed_requests() {
    let mut peer: EapPeer<EapTlsMethod> = EapPeer::new("u".to_string());
    let parse = |b: &[u8]| EapPacket::parse(b).unwrap();
    assert_eq!(peer.handle_packet(&parse(&[3, 1, 0, 4])).unwrap(), EapAction::Success);
    assert_eq!(peer.handle_packet(&parse(&[4, 1, 0, 4])).unwrap(), EapAction::Failure);
    assert_eq!(peer.handle_packet(&parse(&[2, 1, 0, 5, 1])).unwrap(), EapAction::Wait);
    let mut untyped = parse(&[1, 1, 0, 5, 1]);
    untyped.type_ = None;
    let e = peer.handle_packet(&untyped).unwrap_err();
    assert_eq!(e.kind, ErrorKind::HandshakeFailed);
    assert_eq!(e.msg, "EAP Request without a Type");
    assert!(peer.msk().is_none());
}

#[test]
fn tls_messages_roundtrip() {
    let msg = build_tls_message(b"hello");
    assert_eq!(msg, vec![0x80, 0, 0, 0, 5, b'h', b'e', b'l', b'l', b'o']);
    assert_eq!(parse_tls_message(&msg).unwrap(), (0x80, &b"hello"[..]));
    assert!(build_tls_message(&[]).is_empty());
    assert_eq!(parse_tls_message(&[]).unwrap(), (0, &[][..]));
    assert_eq!(parse_tls_message(&[0x20]).unwrap(), (0x20, &[][..]));
    let e = parse_tls_message(&[0x80, 0, 0]).unwrap_err();
    assert_eq!(e.kind, ErrorKind::HandshakeFailed);
}

#[test]
fn pem_files_are_read() {
    let der = cert_from_pem(&pem("CERTIFICATE", CA)).unwrap();
    assert_eq!(der[0], 0x30);
    assert_eq!(cert_from_pem("nothing").unwrap_err().kind, ErrorKind::HandshakeFailed);
    assert!(key_from_pem(&pem("PRIVATE KEY", KEY)).is_ok());
    let e = key_from_pem("nothing").unwrap_err();
    assert!(e.msg.starts_with("EAP-TLS: "));
}

#[test]
fn tls_method_answers_the_start_with_a_client_hello() {
    let mut method = tls_method("radius.example.org").unwrap();
    assert_eq!(method.method_type(), 13);
    assert!(method.msk().is_none());
    let body = method.handle_request(1, &[0x20]).unwrap();
    let (flags, tls) = parse_tls_message(&body).unwrap();
    assert_eq!(flags, 0x80);
    // A TLS handshake record with a ClientHello.
    assert_eq!((tls[0], tls[5]), (22, 1));
    // A record that is no TLS ends the method.
    assert!(method.handle_request(2, &build_tls_message(&[0u8; 16])).is_err());
}

/// The authentication server, which asks for a client certificate.
fn tls_server() -> ServerConnection {
    let mut roots = RootCertStore::empty();
    roots.add(CertificateDer::from(cert_from_pem(&pem("CERTIFICATE", CA)).unwrap())).unwrap();
    let chain = vec![CertificateDer::from(cert_from_pem(&pem("CERTIFICATE", SERVER_CERT)).unwrap())];
    let key = key_from_pem(&pem("PRIVATE KEY", SERVER_KEY)).unwrap();
    let config = ServerConfig::builder_with_protocol_versions(&[&rustls::version::TLS13]);
    let verifier = WebPkiClientVerifier::builder(Arc::new(roots)).build().unwrap();
    let config = config.with_client_cert_verifier(verifier).with_single_cert(chain, key).unwrap();
    ServerConnection::new(Arc::new(config)).unwrap()
}

/// Run EAP-TLS against a server until the method has its MSK.
fn run_tls(method: &mut EapTlsMethod, server: &mut ServerConnection) -> Result<(), WifiError> {
    let mut request = vec![0x20];
    for id in 0..8 {
        let response = method.handle_request(id, &request)?;
        let (_, mut tls) = parse_tls_message(&response).unwrap();
        while !tls.is_empty() {
            server.read_tls(&mut tls).unwrap();
        }
        server.process_new_packets().unwrap();
        if method.msk().is_some() {
            return Ok(());
        }
        let mut out = Vec::new();
        while server.wants_write() {
            server.write_tls(&mut out).unwrap();
        }
        request = build_tls_message(&out);
    }
    Ok(())
}

#[test]
fn tls_handshake_gives_both_sides_one_msk() {
    let mut method = tls_method("radius.example.org").unwrap();
    let mut server = tls_server();
    run_tls(&mut method, &mut server).unwrap();
    let msk = method.msk().unwrap();
    assert!(!server.is_handshaking());
    let km = server
        .export_keying_material([0u8; 128], b"EXPORTER_EAP_TLS_Key_Material", Some(&[13]))
        .unwrap();
    assert_eq!(msk.to_vec(), km[..64].to_vec());
    // Another Request is acknowledged, and the MSK stays.
    let mut out = Vec::new();
    server.write_tls(&mut out).unwrap();
    assert!(method.handle_request(9, &build_tls_message(&out)).unwrap().is_empty());
    assert_eq!(method.msk(), Some(msk));
}

#[test]
fn tls_handshake_needs_the_configured_server_name() {
    let mut method = tls_method("other.example.org").unwrap();
    let e = run_tls(&mut method, &mut tls_server()).unwrap_err();
    assert!(e.msg.starts_with("EAP-TLS: "));
    assert!(method.msk().is_none());
}

#[test]
fn tls_method_rejects_a_bad_server_name() {
    let e = tls_method("not a name").err().unwrap();
    assert_eq!(e.kind, ErrorKind::HandshakeFailed);
}

#[test]
fn client_config_rejects_a_foreign_certificate() {
    let ca = cert_from_pem(&pem("CERTIFICATE", CA)).unwrap();
    let key = key_from_pem(&pem("PRIVATE KEY", KEY)).unwrap();
    // The CA's certificate does not belong to the client's key.
    assert!(client_config(&vec![ca.clone()], vec![ca], key).is_err());
    let key = key_from_pem(&pem("PRIVATE KEY", KEY)).unwrap();
    let cert = cert_from_pem(&pem("CERTIFICATE", CERT)).unwrap();
    assert!(client_config(&vec![vec![1, 2, 3]], vec![cert], key).is_err());
}

#[test]
fn keying_material_gives_the_msk() {
    let mut method = tls_method("radius.example.org").unwrap();
    let mut km = [0u8; 128];
    for (i, b) in km.iter_mut().enumerate() {
        *b = i as u8;
    }
    method.take_key_material(&km);
    assert_eq!(method.msk().unwrap().to_vec(), km[..64].to_vec());
}

const STA: [u8; 6] = [2, 0, 0, 0, 0, 0];
const AP: [u8; 6] = [2, 0, 0, 0, 1, 0];

#[test]
fn sae_method_runs_to_completion() {
    let mut sta = AuthMethod::new_sae("12345678", "net", STA, AP, true, true, None).unwrap();
    let mut ap = AuthMethod::new_sae("12345678", "net", AP, STA, true, false, None).unwrap();
    let from_sta = sta.initial_frame().unwrap();
    let from_ap = ap.initial_frame().unwrap();
    // trans (1) || status (126: H2E) || body
    assert_eq!(&from_sta[..4], &[1, 0, 126, 0]);
    let confirm_sta = match sta.process_frame(1, 126, &from_ap[4..]).unwrap() {
        AuthAction::SendConfirm(c) => c,
        other => panic!("{other:?}"),
    };
    let confirm_ap = match ap.process_frame(1, 126, &from_sta[4..]).unwrap() {
        AuthAction::SendConfirm(c) => c,
        other => panic!("{other:?}"),
    };
    let body = |c: &[u8]| {
        let mut b = vec![1, 0];
        b.extend_from_slice(c);
        b
    };
    assert_eq!(sta.process_frame(2, 0, &body(&confirm_ap)).unwrap(), AuthAction::Complete);
    assert_eq!(ap.process_frame(2, 0, &body(&confirm_sta)).unwrap(), AuthAction::Complete);
    assert_eq!(sta.pmk(), ap.pmk());
    assert_eq!(sta.pmkid(), ap.pmkid());
    // Once confirmed, a retransmission is ignored.
    assert_eq!(sta.process_frame(1, 126, &from_ap[4..]).unwrap(), AuthAction::Continue);
}

#[test]
fn sae_statuses() {
    let fresh = || AuthMethod::new_sae("12345678", "net", STA, AP, true, true, None).unwrap();
    let mut m = fresh();
    m.initial_frame().unwrap();
    assert_eq!(m.process_frame(1, 30, &[]).unwrap(), AuthAction::RetryTemporarily);
    assert_eq!(m.process_frame(1, 1, &[]).unwrap(), AuthAction::RetryWithHnp);
    assert_eq!(m.process_frame(1, 123, &[]).unwrap_err().kind, ErrorKind::AuthFailed);
    assert_eq!(m.process_frame(1, 127, &[]).unwrap_err().kind, ErrorKind::AuthFailed);
    assert_eq!(m.process_frame(2, 15, &[]).unwrap_err().kind, ErrorKind::AuthFailed);
    match m.process_frame(1, 76, &[19, 0, 255, 3, 93, 7, 7]).unwrap() {
        AuthAction::SendCommitWithToken(t) => {
            assert_eq!(t, vec![7, 7]);
            assert!(m.commit_with_token(&t).unwrap().ends_with(&[255, 3, 93, 7, 7]));
        },
        other => panic!("{other:?}"),
    }
    // The fallback is to the other method, either way.
    let mut m = AuthMethod::new_sae("12345678", "net", STA, AP, false, true, None).unwrap();
    m.initial_frame().unwrap();
    assert_eq!(m.process_frame(1, 1, &[]).unwrap(), AuthAction::RetryWithH2e);
    for h2e in [true, false] {
        let mut m = AuthMethod::new_sae("12345678", "net", STA, AP, h2e, false, None).unwrap();
        m.initial_frame().unwrap();
        assert_eq!(m.process_frame(1, 1, &[]).unwrap_err().kind, ErrorKind::AuthFailed);
    }
    assert!(is_temporary_reject_status(17) && is_temporary_reject_status(35));
    assert!(!is_temporary_reject_status(31));
}

#[test]
fn password_identifier_is_in_every_commit() {
    let new = |id| AuthMethod::new_sae("12345678", "net", STA, AP, true, false, id).unwrap();
    let mut m = new(Some("guest"));
    let commit = m.initial_frame().unwrap();
    assert_eq!(commit.len(), 102 + 8);
    assert_eq!(&commit[102..], &[255, 6, 33, b'g', b'u', b'e', b's', b't']);
    let again = m.commit_with_token(&[7, 7]).unwrap();
    assert_eq!(
        &again[102..],
        &[255, 6, 33, b'g', b'u', b'e', b's', b't', 255, 3, 93, 7, 7]
    );
    // The exchange only works out between sides that use the same identifier.
    for (ap_id, agrees) in [(Some("guest"), true), (Some("other"), false), (None, false)] {
        let mut sta = new(Some("guest"));
        let mut ap = AuthMethod::new_sae("12345678", "net", AP, STA, true, false, ap_id).unwrap();
        let from_sta = sta.initial_frame().unwrap();
        let from_ap = ap.initial_frame().unwrap();
        sta.process_frame(1, 126, &from_ap[4..]).unwrap();
        let mut body = vec![1, 0];
        match ap.process_frame(1, 126, &from_sta[4..]).unwrap() {
            AuthAction::SendConfirm(c) => body.extend_from_slice(&c),
            other => panic!("{other:?}"),
        }
        assert_eq!(sta.process_frame(2, 0, &body).is_ok(), agrees);
    }
    let long = "x".repeat(255);
    let e = AuthMethod::new_sae("12345678", "net", STA, AP, true, false, Some(&long)).unwrap_err();
    assert_eq!(e.kind, ErrorKind::InvalidConfig);
    let fits = "x".repeat(254);
    let mut m = new(Some(&fits));
    assert_eq!(&m.initial_frame().unwrap()[102..105], &[255, 255, 33]);
    // Hunting-and-pecking knows no identifiers.
    let mut m =
        AuthMethod::new_sae("12345678", "net", STA, AP, false, false, Some("guest")).unwrap();
    assert_eq!(m.initial_frame().unwrap().len(), 102);
}
