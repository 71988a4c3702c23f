//! EAP-TLS method (RFC 5216 framing, RFC 9190 TLS 1.3 key export).
//!
//! TLS runs directly over EAP: each EAP-TLS message carries a flags octet, an
//! optional 4-octet TLS message length (L bit), and raw TLS records
//! (fragmented per RFC 5216). TLS 1.3 is required so the MSK can be derived
//! with the RFC 9190 exporter (`EXPORTER_EAP_TLS_Key_Material`, context = EAP
//! type 13).

use vstd::prelude::*;
use vstd::string::*;

use std::io::Cursor;
use std::sync::Arc;

use rustls::pki_types::pem::PemObject;
use rustls::pki_types::{CertificateDer, PrivateKeyDer, ServerName};
use rustls::{ClientConfig, ClientConnection, RootCertStore};

use crate::bytes;
use crate::eap::{EapMethod, TYPE_TLS};
use crate::error::{ErrorKind, WifiError};
use crate::text;

verus! {

/// EAP-TLS flags (RFC 5216 §2.1).
pub const EAP_TLS_FLAG_L: u8 = 0x80;

pub const EAP_TLS_FLAG_M: u8 = 0x40;

pub const EAP_TLS_FLAG_START: u8 = 0x20;

/// The exporter label of the key material (RFC 9190 §2.3).
pub const EXPORTER_LABEL: &'static str = "EXPORTER_EAP_TLS_Key_Material";

#[verifier::external_type_specification]
#[verifier::external_body]
pub struct ExClientConnection(ClientConnection);

#[verifier::external_type_specification]
#[verifier::external_body]
pub struct ExClientConfig(ClientConfig);

#[verifier::external_type_specification]
#[verifier::external_body]
pub struct ExRootCertStore(RootCertStore);

#[verifier::external_type_specification]
#[verifier::external_body]
pub struct ExPrivateKeyDer<'a>(PrivateKeyDer<'a>);

#[verifier::external_type_specification]
#[verifier::external_body]
pub struct ExServerName<'a>(ServerName<'a>);

/// What a trust anchor says: its subject, its public key and its name
/// constraints, in DER.
pub type Anchor = (Seq<u8>, Seq<u8>, Option<Seq<u8>>);

/// What `CertificateDer::from_pem_slice` gives for PEM octets: the DER octets
/// of the first certificate, or the text of the error.
pub uninterp spec fn pem_certificate(pem: Seq<u8>) -> Result<Seq<u8>, Seq<char>>;

/// What `PrivateKeyDer::from_pem_slice` gives for PEM octets: the first
/// private key, or the text of the error.
pub uninterp spec fn pem_key(pem: Seq<u8>) -> Result<PrivateKeyDer<'static>, Seq<char>>;

/// What `ServerName::try_from` gives for a name, or the text of the error.
pub uninterp spec fn parsed_name(name: Seq<char>) -> Result<ServerName<'static>, Seq<char>>;

/// The trust anchors that a store holds.
pub uninterp spec fn anchors(roots: RootCertStore) -> Seq<Anchor>;

/// The trust anchor that `RootCertStore::add` makes of a certificate in DER,
/// or the text of the error.
pub uninterp spec fn certificate_anchor(der: Seq<u8>) -> Result<Anchor, Seq<char>>;

/// Whether a client configuration is for TLS 1.3 alone, verifies servers
/// against trust anchors, and authenticates with a certificate chain and its
/// key.
pub uninterp spec fn authenticates(
    config: ClientConfig,
    roots: Seq<Anchor>,
    chain: Seq<Seq<u8>>,
    key: PrivateKeyDer<'static>,
) -> bool;

/// Whether a connection is one that was made with a configuration, to a server
/// of a name.
pub uninterp spec fn connects(
    conn: ClientConnection,
    config: ClientConfig,
    name: ServerName<'static>,
) -> bool;

/// The octets that a connection wants to send.
pub uninterp spec fn sendable(conn: ClientConnection) -> Seq<u8>;

/// The octets that a connection has taken from `read_tls`.
pub uninterp spec fn received(conn: ClientConnection) -> Seq<u8>;

/// The octets that a connection had received when `process_new_packets` last
/// succeeded on it.
pub uninterp spec fn examined(conn: ClientConnection) -> Seq<u8>;

/// Whether the server has ended a connection, with a `close_notify` alert.
pub uninterp spec fn ended(conn: ClientConnection) -> bool;

/// What `is_handshaking` says of a connection.
pub uninterp spec fn handshaking(conn: ClientConnection) -> bool;

/// What `export_keying_material` gives of a connection for 128 octets under a
/// label and a context, or the text of the error.
pub uninterp spec fn keying_material(
    conn: ClientConnection,
    label: Seq<u8>,
    context: Seq<u8>,
) -> Result<Seq<u8>, Seq<char>>;

/// `rustls::pki_types::CertificateDer::from_pem_slice`: the first certificate
/// in PEM octets.
#[verifier::external_body]
fn certificate_of_pem(pem: &[u8]) -> (r: Result<Vec<u8>, String>)
    ensures
        match r {
            Ok(der) => pem_certificate(pem@) == Ok::<Seq<u8>, Seq<char>>(der@),
            Err(t) => pem_certificate(pem@) == Err::<Seq<u8>, Seq<char>>(t@),
        },
{
    match CertificateDer::from_pem_slice(pem) {
        Ok(der) => Ok(der.to_vec()),
        Err(e) => Err(e.to_string()),
    }
}

/// `rustls::pki_types::PrivateKeyDer::from_pem_slice`: the first private key
/// in PEM octets.
#[verifier::external_body]
fn key_of_pem(pem: &[u8]) -> (r: Result<PrivateKeyDer<'static>, String>)
    ensures
        match r {
            Ok(key) => pem_key(pem@) == Ok::<PrivateKeyDer<'static>, Seq<char>>(key),
            Err(t) => pem_key(pem@) == Err::<PrivateKeyDer<'static>, Seq<char>>(t@),
        },
{
    PrivateKeyDer::from_pem_slice(pem).map_err(|e| e.to_string())
}

/// `ServerName::try_from`: a name to verify the server's certificate
/// against.
#[verifier::external_body]
fn parse_server_name(name: &str) -> (r: Result<ServerName<'static>, String>)
    ensures
        match r {
            Ok(n) => parsed_name(name@) == Ok::<ServerName<'static>, Seq<char>>(n),
            Err(t) => parsed_name(name@) == Err::<ServerName<'static>, Seq<char>>(t@),
        },
{
    ServerName::try_from(name.to_string()).map_err(|e| e.to_string())
}

/// `rustls::RootCertStore::empty`: a store without trust anchors.
#[verifier::external_body]
fn no_roots() -> (r: RootCertStore)
    ensures
        anchors(r) == Seq::<Anchor>::empty(),
{
    RootCertStore::empty()
}

/// `rustls::RootCertStore::add` of a certificate given as DER octets: its
/// trust anchor comes last in the store. A certificate that has none leaves
/// the store as it was; the error is its text.
#[verifier::external_body]
fn add_root(roots: &mut RootCertStore, der: &[u8]) -> (r: Result<(), String>)
    ensures
        match r {
            Ok(()) => certificate_anchor(der@) matches Ok(anchor) && anchors(*final(roots))
                == anchors(*old(roots)).push(anchor),
            Err(t) => certificate_anchor(der@) == Err::<Anchor, Seq<char>>(t@) && anchors(
                *final(roots),
            ) == anchors(*old(roots)),
        },
{
    roots.add(CertificateDer::from(der)).map_err(|e| e.to_string())
}

/// The octets of each of some certificates.
pub open spec fn der_views(list: Seq<Vec<u8>>) -> Seq<Seq<u8>> {
    Seq::new(list.len(), |i: int| list[i]@)
}

/// A `rustls::ClientConfig` for TLS 1.3 alone, with trusted roots and a
/// client certificate; the error is its text. Whether the key is accepted is
/// up to the cryptography provider of the process, so when it fails is not
/// stated.
#[verifier::external_body]
fn mutual_tls_config(
    roots: RootCertStore,
    cert_chain: Vec<Vec<u8>>,
    key: PrivateKeyDer<'static>,
) -> (r: Result<Arc<ClientConfig>, String>)
    ensures
        r matches Ok(config) ==> authenticates(
            *config,
            anchors(roots),
            der_views(cert_chain@),
            key,
        ),
{
    let chain = cert_chain.into_iter().map(CertificateDer::from).collect();
    ClientConfig::builder_with_protocol_versions(&[&rustls::version::TLS13])
        .with_root_certificates(roots)
        .with_client_auth_cert(chain, key)
        .map(Arc::new)
        .map_err(|e| e.to_string())
}

/// `rustls::ClientConnection::new`: a connection with a configuration to a
/// server of a name, which has received nothing yet; the error is its text. It
/// draws random numbers, so when it fails is not stated.
#[verifier::external_body]
fn connect(config: &Arc<ClientConfig>, server_name: &ServerName<'static>) -> (r: Result<
    ClientConnection,
    String,
>)
    ensures
        r matches Ok(conn) ==> connects(conn, **config, *server_name) && received(conn)
            == Seq::<u8>::empty() && examined(conn) == Seq::<u8>::empty() && !ended(conn),
{
    ClientConnection::new(config.clone(), server_name.clone()).map_err(|e| e.to_string())
}

/// `read_tls` of a connection from octets: how many of them it took, from the
/// first on and never more than there are; the error, with which it took none,
/// is its text. It takes none of some octets just where the server has ended
/// the connection. Otherwise how many it takes is up to its buffers, and is not
/// stated. The connection stays one to the same server.
#[verifier::external_body]
fn read_tls(conn: &mut ClientConnection, data: &[u8]) -> (r: Result<usize, String>)
    ensures
        r matches Ok(used) ==> {
            &&& used <= data@.len()
            &&& received(*final(conn)) == received(*old(conn)) + data@.take(used as int)
            &&& data@.len() > 0 ==> (used == 0 <==> ended(*old(conn)))
        },
        r is Err ==> received(*final(conn)) == received(*old(conn)),
        examined(*final(conn)) == examined(*old(conn)),
        ended(*final(conn)) == ended(*old(conn)),
        forall|c: ClientConfig, n: ServerName<'static>|
            connects(*old(conn), c, n) ==> #[trigger] connects(*final(conn), c, n),
{
    conn.read_tls(&mut Cursor::new(data)).map_err(|e| e.to_string())
}

/// `process_new_packets` of a connection: goes through what the connection
/// has received; the error is its text. A connection that the server has ended
/// stays so, and the connection stays one to the same server. What it makes of
/// the packets is up to TLS and the server, and is not stated.
#[verifier::external_body]
fn process_new_packets(conn: &mut ClientConnection) -> (r: Result<(), String>)
    ensures
        received(*final(conn)) == received(*old(conn)),
        r is Ok ==> examined(*final(conn)) == received(*final(conn)),
        ended(*old(conn)) ==> ended(*final(conn)),
        forall|c: ClientConfig, n: ServerName<'static>|
            connects(*old(conn), c, n) ==> #[trigger] connects(*final(conn), c, n),
{
    conn.process_new_packets().map(|_| ()).map_err(|e| e.to_string())
}

/// `write_tls` of a connection: octets it wants to send, which then are
/// sendable no more, at least one where there is any; the error is its text.
/// What the connection received stays, and it stays one to the same server.
#[verifier::external_body]
fn write_tls(conn: &mut ClientConnection) -> (r: Result<Vec<u8>, String>)
    ensures
        r matches Ok(out) ==> sendable(*old(conn)) == out@ + sendable(*final(conn)),
        r matches Ok(out) ==> sendable(*old(conn)).len() > 0 ==> out@.len() > 0,
        received(*final(conn)) == received(*old(conn)),
        examined(*final(conn)) == examined(*old(conn)),
        ended(*final(conn)) == ended(*old(conn)),
        forall|c: ClientConfig, n: ServerName<'static>|
            connects(*old(conn), c, n) ==> #[trigger] connects(*final(conn), c, n),
{
    let mut out = Vec::new();
    conn.write_tls(&mut out).map_err(|e| e.to_string())?;
    Ok(out)
}

/// `is_handshaking` of a connection.
#[verifier::external_body]
fn is_handshaking(conn: &ClientConnection) -> (r: bool)
    ensures
        r == handshaking(*conn),
{
    conn.is_handshaking()
}

/// `export_keying_material` of a connection, for 128 octets under a label
/// and a context; the error is its text.
#[verifier::external_body]
fn export_keying_material(conn: &ClientConnection, label: &[u8], context: &[u8]) -> (r: Result<
    [u8; 128],
    String,
>)
    ensures
        match r {
            Ok(km) => keying_material(*conn, label@, context@) == Ok::<Seq<u8>, Seq<char>>(km@),
            Err(t) => keying_material(*conn, label@, context@) == Err::<Seq<u8>, Seq<char>>(t@),
        },
{
    conn.export_keying_material([0u8; 128], label, Some(context)).map_err(|e| e.to_string())
}

/// Whether a connection sent octets: they come first in what it wanted to
/// send, and leave it. Where it wanted to send some, it sent some; what it
/// received is as before.
pub open spec fn sends(before: ClientConnection, after: ClientConnection, out: Seq<u8>) -> bool {
    &&& sendable(before) == out + sendable(after)
    &&& sendable(before).len() > 0 ==> out.len() > 0
    &&& received(after) == received(before)
    &&& examined(after) == examined(before)
}

/// The EAP-TLS message that carries TLS data: the flags octet with the L bit,
/// the length and the data; empty for no data (the ACK).
pub open spec fn tls_message(data: Seq<u8>) -> Seq<u8> {
    if data.len() == 0 {
        Seq::empty()
    } else {
        seq![EAP_TLS_FLAG_L] + bytes::be32_bytes((data.len() % 0x1_0000_0000) as u32) + data
    }
}

/// The flags and the TLS data of an EAP-TLS message, or why it is malformed.
pub open spec fn tls_message_parts(body: Seq<u8>) -> Result<(u8, Seq<u8>), Seq<char>> {
    if body.len() == 0 {
        Ok((0, Seq::empty()))
    } else if body[0] & EAP_TLS_FLAG_L != 0 {
        if body.len() < 5 {
            Err("EAP-TLS message with L bit but no length field"@)
        } else {
            Ok((body[0], body.subrange(5, body.len() as int)))
        }
    } else {
        Ok((body[0], body.subrange(1, body.len() as int)))
    }
}

/// Build an EAP-TLS message body from TLS data. Empty data produces the
/// zero-length ACK message (RFC 5216 §2.1).
pub fn build_tls_message(data: &[u8]) -> (r: Vec<u8>)
    ensures
        r@ == tls_message(data@),
{
    let mut msg: Vec<u8> = Vec::new();
    if data.len() == 0 {
        assert(msg@ =~= tls_message(data@));
        return msg;
    }
    msg.push(EAP_TLS_FLAG_L);
    let length: u64 = data.len() as u64 % 0x1_0000_0000;
    bytes::push_be32(&mut msg, length as u32);
    bytes::append(&mut msg, data);
    assert(msg@ =~= tls_message(data@));
    msg
}

/// Parse an EAP-TLS message body into (flags, TLS data).
pub fn parse_tls_message(body: &[u8]) -> (r: Result<(u8, &[u8]), WifiError>)
    ensures
        match tls_message_parts(body@) {
            Ok((flags, data)) => r matches Ok((f, d)) && f == flags && d@ == data,
            Err(msg) => r matches Err(e) && e.is(ErrorKind::HandshakeFailed, msg),
        },
{
    if body.len() == 0 {
        assert(body@ =~= Seq::<u8>::empty());
        return Ok((0, body));
    }
    let flags: u8 = body[0];
    if flags & EAP_TLS_FLAG_L != 0 {
        if body.len() < 5 {
            return Err(
                WifiError::new(
                    ErrorKind::HandshakeFailed,
                    "EAP-TLS message with L bit but no length field",
                ),
            );
        }
        Ok((flags, vstd::slice::slice_subrange(body, 5, body.len())))
    } else {
        Ok((flags, vstd::slice::slice_subrange(body, 1, body.len())))
    }
}

/// TLS data is read back from the EAP-TLS message that carries it.
pub proof fn law_tls_message_roundtrip(data: Seq<u8>)
    ensures
        tls_message_parts(tls_message(data)) matches Ok((flags, d)) && d == data && (flags
            & EAP_TLS_FLAG_START) == 0,
{
    assert(0x80u8 & 0x80u8 != 0 && 0x80u8 & 0x20u8 == 0 && 0u8 & 0x20u8 == 0) by (bit_vector);
    if data.len() > 0 {
        let m = tls_message(data);
        assert(m[0] == EAP_TLS_FLAG_L);
        assert(m.subrange(5, m.len() as int) =~= data);
    } else {
        assert(data =~= Seq::<u8>::empty());
    }
}

/// Whether an error is one of TLS: its text follows `EAP-TLS: `.
pub open spec fn is_tls_failure(e: WifiError) -> bool {
    exists|t: Seq<char>| e.is(ErrorKind::HandshakeFailed, #[trigger] ("EAP-TLS: "@ + t))
}

/// An error of TLS with its text.
fn tls_err(t: &String) -> (e: WifiError)
    ensures
        e.is(ErrorKind::HandshakeFailed, "EAP-TLS: "@ + t@),
        is_tls_failure(e),
{
    let msg = text::text2("EAP-TLS: ", t.as_str());
    WifiError::new(ErrorKind::HandshakeFailed, msg.as_str())
}

/// Parse a PEM certificate (first certificate in the file).
pub fn cert_from_pem(pem: &str) -> (r: Result<Vec<u8>, WifiError>)
    ensures
        match pem_certificate(pem.spec_bytes()) {
            Ok(der) => r matches Ok(d) && d@ == der,
            Err(t) => r matches Err(e) && e.is(ErrorKind::HandshakeFailed, "EAP-TLS: "@ + t),
        },
{
    match certificate_of_pem(pem.as_bytes()) {
        Ok(der) => Ok(der),
        Err(t) => Err(tls_err(&t)),
    }
}

/// Parse a PEM private key.
pub fn key_from_pem(pem: &str) -> (r: Result<PrivateKeyDer<'static>, WifiError>)
    ensures
        match pem_key(pem.spec_bytes()) {
            Ok(key) => r == Ok::<PrivateKeyDer<'static>, WifiError>(key),
            Err(t) => r matches Err(e) && e.is(ErrorKind::HandshakeFailed, "EAP-TLS: "@ + t),
        },
{
    match key_of_pem(pem.as_bytes()) {
        Ok(key) => Ok(key),
        Err(t) => Err(tls_err(&t)),
    }
}

/// The trust anchors of certificates in DER, or the text of the error of the
/// first that has none.
pub open spec fn certificate_anchors(ca_der: Seq<Seq<u8>>) -> Result<Seq<Anchor>, Seq<char>>
    decreases ca_der.len(),
{
    if ca_der.len() == 0 {
        Ok(Seq::empty())
    } else {
        match (certificate_anchors(ca_der.drop_last()), certificate_anchor(ca_der.last())) {
            (Err(t), _) => Err(t),
            (Ok(_), Err(t)) => Err(t),
            (Ok(list), Ok(anchor)) => Ok(list.push(anchor)),
        }
    }
}

/// Build a TLS 1.3-only client config with mutual TLS (client certificate
/// required, as EAP-TLS deployments expect). Certificates are DER octets.
pub fn client_config(
    ca_der: &Vec<Vec<u8>>,
    cert_chain: Vec<Vec<u8>>,
    key: PrivateKeyDer<'static>,
) -> (r: Result<Arc<ClientConfig>, WifiError>)
    ensures
        match certificate_anchors(der_views(ca_der@)) {
            Ok(roots) => match r {
                Ok(config) => authenticates(*config, roots, der_views(cert_chain@), key),
                Err(e) => is_tls_failure(e),
            },
            Err(t) => r matches Err(e) && e.is(ErrorKind::HandshakeFailed, "EAP-TLS: "@ + t),
        },
{
    let ghost all = der_views(ca_der@);
    let mut roots = no_roots();
    let mut i: usize = 0;
    assert(all.take(0) =~= Seq::<Seq<u8>>::empty());
    while i < ca_der.len()
        invariant
            i <= ca_der@.len(),
            all == der_views(ca_der@),
            certificate_anchors(all.take(i as int)) == Ok::<Seq<Anchor>, Seq<char>>(
                anchors(roots),
            ),
        decreases ca_der@.len() - i,
    {
        let ghost next = all.take(i + 1);
        assert(next.drop_last() =~= all.take(i as int));
        assert(next.last() == ca_der@[i as int]@);
        match add_root(&mut roots, ca_der[i].as_slice()) {
            Ok(()) => {},
            Err(t) => {
                proof {
                    lemma_first_error(all, i + 1);
                }
                return Err(tls_err(&t));
            },
        }
        i = i + 1;
    }
    assert(all.take(all.len() as int) =~= all);
    match mutual_tls_config(roots, cert_chain, key) {
        Ok(config) => Ok(config),
        Err(t) => Err(tls_err(&t)),
    }
}

/// The error of the first certificates is that of all of them.
proof fn lemma_first_error(ca_der: Seq<Seq<u8>>, n: int)
    requires
        0 <= n <= ca_der.len(),
        certificate_anchors(ca_der.take(n)) is Err,
    ensures
        certificate_anchors(ca_der) == certificate_anchors(ca_der.take(n)),
    decreases ca_der.len() - n,
{
    if n < ca_der.len() {
        assert(ca_der.take(n + 1).drop_last() =~= ca_der.take(n));
        lemma_first_error(ca_der, n + 1);
    } else {
        assert(ca_der.take(n) =~= ca_der);
    }
}

/// The EAP-TLS method: drives a rustls client connection over EAP fragments
/// and exports the RFC 9190 MSK.
pub struct EapTlsMethod {
    pub conn: Option<ClientConnection>,
    pub config: Arc<ClientConfig>,
    pub server_name: ServerName<'static>,
    /// TLS bytes received but not yet consumed by rustls.
    pub rx_buf: Vec<u8>,
    pub msk: Option<[u8; 64]>,
}

impl EapTlsMethod {
    pub fn new(config: Arc<ClientConfig>, server_name: &str) -> (r: Result<Self, WifiError>)
        ensures
            match parsed_name(server_name@) {
                Ok(name) => {
                    &&& r matches Ok(m)
                    &&& m.conn is None
                    &&& m.config == config
                    &&& m.server_name == name
                    &&& m.rx_buf@.len() == 0
                    &&& m.msk is None
                },
                Err(t) => r matches Err(e) && e.is(ErrorKind::HandshakeFailed, "EAP-TLS: "@ + t),
            },
    {
        match parse_server_name(server_name) {
            Ok(server_name) => Ok(
                EapTlsMethod { conn: None, config, server_name, rx_buf: Vec::new(), msk: None },
            ),
            Err(t) => Err(tls_err(&t)),
        }
    }

    /// What holds of every method: its TLS connection is made with its
    /// configuration, to its server.
    pub open spec fn wf(self) -> bool {
        self.conn matches Some(conn) ==> connects(conn, *self.config, self.server_name)
    }

    /// Whether the MSK is the one that a connection exports: it has none
    /// during the handshake, and after it the first half of the key material.
    pub open spec fn has_msk_of(self, conn: ClientConnection) -> bool {
        if handshaking(conn) {
            self.msk is None
        } else {
            &&& keying_material(conn, EXPORTER_LABEL.spec_bytes(), seq![TYPE_TLS]) matches Ok(km)
            &&& self.msk matches Some(msk)
            &&& msk@ == km.subrange(0, 64)
        }
    }

    /// The TLS data received so far: what the connection took, then what is
    /// buffered for it.
    pub open spec fn tls_data(self) -> Seq<u8> {
        match self.conn {
            Some(conn) => received(conn) + self.rx_buf@,
            None => self.rx_buf@,
        }
    }

    /// Whether a method answered a Request that carries `data` with octets of
    /// TLS. The data has gone to the connection, unless the server has ended
    /// it, and the connection went through it before it was asked what to
    /// send. Where the Request carried no data and a connection was there,
    /// that connection was asked as it was.
    pub open spec fn answered(self, after: Self, data: Seq<u8>, response: Seq<u8>) -> bool {
        &&& after.conn matches Some(conn)
        &&& data.len() > 0 ==> {
            &&& after.rx_buf@.len() == 0 || ended(conn)
            &&& examined(conn) == received(conn)
        }
        &&& exists|asked: ClientConnection, out: Seq<u8>|
            {
                &&& #[trigger] sends(asked, conn, out)
                &&& response == tls_message(out)
                &&& data.len() == 0 && self.conn is Some ==> self.conn == Some(asked)
            }
    }

    /// Why a Request is refused before TLS sees it, where it is.
    pub open spec fn request_error(self, body: Seq<u8>) -> Option<Seq<char>> {
        match tls_message_parts(body) {
            Err(msg) => Some(msg),
            Ok((flags, _)) => if flags & EAP_TLS_FLAG_START == 0 && self.conn is None {
                Some("EAP-TLS data received before Start"@)
            } else {
                None
            },
        }
    }

    /// Record the exported key material: the MSK is its first half (RFC 9190
    /// §5.1).
    pub fn take_key_material(&mut self, km: &[u8; 128])
        ensures
            final(self).msk matches Some(msk) && msk@ == km@.subrange(0, 64),
            *final(self) == (EapTlsMethod { msk: final(self).msk, ..*old(self) }),
    {
        self.msk = Some(bytes::array64(km, 0));
    }
}

/// Whether a connection is still one to the same server.
pub open spec fn stays(before: ClientConnection, after: ClientConnection) -> bool {
    forall|c: ClientConfig, n: ServerName<'static>|
        connects(before, c, n) ==> #[trigger] connects(after, c, n)
}

/// Hand buffered octets to a connection until it takes no more; what it took
/// leaves the buffer. Where that succeeds nothing is left, unless the server
/// has ended the connection.
fn drain_into(conn: &mut ClientConnection, rx_buf: &mut Vec<u8>) -> (r: Result<(), String>)
    ensures
        received(*final(conn)) + final(rx_buf)@ == received(*old(conn)) + old(rx_buf)@,
        r is Ok ==> final(rx_buf)@.len() == 0 || ended(*final(conn)),
        examined(*final(conn)) == examined(*old(conn)),
        ended(*final(conn)) == ended(*old(conn)),
        stays(*old(conn), *final(conn)),
{
    let ghost whole = received(*conn) + rx_buf@;
    loop
        invariant
            whole == received(*old(conn)) + old(rx_buf)@,
            received(*conn) + rx_buf@ == whole,
            examined(*conn) == examined(*old(conn)),
            ended(*conn) == ended(*old(conn)),
            stays(*old(conn), *conn),
        ensures
            rx_buf@.len() == 0 || ended(*conn),
        decreases rx_buf@.len(),
    {
        if rx_buf.len() == 0 {
            break ;
        }
        let ghost taken = received(*conn);
        let ghost buffered = rx_buf@;
        let used: usize = match read_tls(conn, rx_buf.as_slice()) {
            Ok(used) => used,
            Err(t) => {
                return Err(t);
            },
        };
        if used == 0 {
            assert(taken + buffered.take(0) =~= taken);
            break ;
        }
        let rest = bytes::sub_vec(rx_buf.as_slice(), used, rx_buf.len());
        assert(taken + buffered.take(used as int) + rest@ =~= taken + buffered);
        *rx_buf = rest;
    }
    Ok(())
}

/// One turn of TLS: feed data to a connection, after what is buffered for it,
/// and collect what it wants to send and, where that is wanted and the
/// handshake is over, the key material. The error is the text of TLS's own. The
/// ghost value is the connection as it was asked what to send.
fn turn_tls(conn: &mut ClientConnection, rx_buf: &mut Vec<u8>, data: &[u8], wants_key: bool) -> (r:
    Result<(Vec<u8>, Option<[u8; 128]>, Ghost<ClientConnection>), String>)
    ensures
        received(*final(conn)) + final(rx_buf)@ == received(*old(conn)) + old(rx_buf)@ + data@,
        stays(*old(conn), *final(conn)),
        r is Ok && data@.len() > 0 ==> final(rx_buf)@.len() == 0 || ended(*final(conn)),
        r is Ok && data@.len() > 0 ==> examined(*final(conn)) == received(*final(conn)),
        r matches Ok((out, _, asked)) ==> sends(asked@, *final(conn), out@),
        r matches Ok((_, _, asked)) ==> data@.len() == 0 ==> asked@ == *old(conn),
        r matches Ok((_, km, _)) ==> (km is Some <==> wants_key && !handshaking(*final(conn))),
        r matches Ok((_, Some(km), _)) ==> keying_material(
            *final(conn),
            EXPORTER_LABEL.spec_bytes(),
            seq![TYPE_TLS],
        ) == Ok::<Seq<u8>, Seq<char>>(km@),
{
    let ghost whole = received(*conn) + rx_buf@ + data@;
    // Feed TLS bytes (possibly fragmented across EAP messages); rustls buffers
    // partial records internally.
    if data.len() > 0 {
        bytes::append(rx_buf, data);
        assert(received(*conn) + rx_buf@ =~= whole);
        drain_into(conn, rx_buf)?;
        process_new_packets(conn)?;
    } else {
        assert(received(*conn) + rx_buf@ =~= whole);
    }
    let ghost asked = *conn;
    // Collect the TLS records the connection wants to send.
    let out = write_tls(conn)?;
    // RFC 9190 §5.1: MSK = first 64 octets of
    // TLS-Exporter("EXPORTER_EAP_TLS_Key_Material", context = EAP-Type, 128).
    if wants_key && !is_handshaking(conn) {
        let context: [u8; 1] = [TYPE_TLS];
        assert(context@ =~= seq![TYPE_TLS]);
        let km = export_keying_material(conn, EXPORTER_LABEL.as_bytes(), &context)?;
        return Ok((out, Some(km), Ghost(asked)));
    }
    Ok((out, None, Ghost(asked)))
}

impl EapMethod for EapTlsMethod {
    open spec fn spec_type(&self) -> u8 {
        TYPE_TLS
    }

    open spec fn spec_msk(&self) -> Option<[u8; 64]> {
        self.msk
    }

    /// A Request that is malformed, or that carries data before the Start, is
    /// refused. Any other is fed to TLS, with a connection that its Start
    /// makes where there is none, and gives either an EAP-TLS message around
    /// what TLS wants to send or an error of TLS. No TLS data is lost: what a
    /// Request carries is in the connection or in the buffer, after what came
    /// before it, unless no connection could be made. A connection, once made,
    /// stays; so does the MSK, which is exported as the handshake ends.
    open spec fn steps(
        &self,
        identifier: u8,
        body: Seq<u8>,
        after: &Self,
        r: Result<Vec<u8>, WifiError>,
    ) -> bool {
        match self.request_error(body) {
            Some(msg) => {
                &&& r matches Err(e)
                &&& e.is(ErrorKind::HandshakeFailed, msg)
                &&& *after == *self
            },
            None => {
                let data = tls_message_parts(body)->Ok_0.1;
                &&& match r {
                    Ok(response) => {
                        &&& self.answered(*after, data, response@)
                        &&& if self.msk is None {
                            after.has_msk_of(after.conn->0)
                        } else {
                            after.msk == self.msk
                        }
                    },
                    Err(e) => is_tls_failure(e) && after.msk == self.msk,
                }
                &&& if after.conn is Some {
                    after.tls_data() == self.tls_data() + data
                } else {
                    *after == *self
                }
                &&& self.wf() ==> after.wf()
                &&& self.conn is Some ==> after.conn is Some
                &&& after.config == self.config
                &&& after.server_name == self.server_name
            },
        }
    }

    fn method_type(&self) -> (t: u8) {
        TYPE_TLS
    }

    /// Feed a Request to TLS. What TLS makes of it is not predicted.
    fn handle_request(&mut self, _identifier: u8, body: &[u8]) -> (r: Result<Vec<u8>, WifiError>)
    {
        let (flags, data) = match parse_tls_message(body) {
            Ok(parts) => parts,
            Err(e) => {
                return Err(e);
            },
        };
        let ghost fed = data@;
        let mut conn = match self.conn.take() {
            Some(conn) => conn,
            None => {
                // The Start flag creates the TLS connection and answers with
                // the ClientHello.
                if flags & EAP_TLS_FLAG_START == 0 {
                    return Err(
                        WifiError::new(
                            ErrorKind::HandshakeFailed,
                            "EAP-TLS data received before Start",
                        ),
                    );
                }
                match connect(&self.config, &self.server_name) {
                    Ok(conn) => conn,
                    Err(t) => {
                        return Err(tls_err(&t));
                    },
                }
            },
        };
        let turn = turn_tls(&mut conn, &mut self.rx_buf, data, self.msk.is_none());
        self.conn = Some(conn);
        assert(self.tls_data() =~= old(self).tls_data() + fed);
        match turn {
            Ok((out, km, asked)) => {
                let msg = build_tls_message(out.as_slice());
                if let Some(km) = km {
                    self.take_key_material(&km);
                }
                assert(sends(asked@, self.conn->0, out@));
                Ok(msg)
            },
            Err(t) => Err(tls_err(&t)),
        }
    }

    fn msk(&self) -> (r: Option<[u8; 64]>) {
        self.msk
    }
}

/// TLS data reaches TLS: after an answered Request that carries some, the
/// connection has received all the data of the Requests so far, in order, and
/// has gone through it, unless the server has ended the connection.
pub proof fn law_data_reaches_the_connection(
    before: EapTlsMethod,
    after: EapTlsMethod,
    identifier: u8,
    body: Seq<u8>,
    flags: u8,
    data: Seq<u8>,
    response: Vec<u8>,
)
    requires
        tls_message_parts(body) == Ok::<(u8, Seq<u8>), Seq<char>>((flags, data)),
        data.len() > 0,
        before.steps(identifier, body, &after, Ok(response)),
    ensures
        after.conn matches Some(conn) && (ended(conn) || received(conn) == before.tls_data() + data
            && examined(conn) == received(conn)),
{
    let conn = after.conn->0;
    if !ended(conn) {
        assert(after.tls_data() =~= received(conn));
    }
}

/// The trust anchors are those of the certificates, one for each and in their
/// order; where a certificate makes none, that is the error.
pub proof fn law_anchors_in_order(ca_der: Seq<Seq<u8>>, i: int)
    requires
        0 <= i < ca_der.len(),
    ensures
        certificate_anchors(ca_der) matches Ok(list) ==> list.len() == ca_der.len()
            && certificate_anchor(ca_der[i]) == Ok::<Anchor, Seq<char>>(list[i]),
        certificate_anchors(ca_der) is Ok ==> certificate_anchor(ca_der[i]) is Ok,
    decreases ca_der.len(),
{
    let front = ca_der.drop_last();
    if i < ca_der.len() - 1 {
        law_anchors_in_order(front, i);
        assert(front[i] == ca_der[i]);
    } else if front.len() > 0 {
        law_anchors_in_order(front, 0);
    }
}

} // verus!
