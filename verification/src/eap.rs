//! EAP (Extensible Authentication Protocol, RFC 3748) peer framing and state
//! machine.
//!
//! Shared by WiFi 802.1X (EAP over the nl80211 control port) and wired
//! 802.1X (EAPOL over Ethernet). The EAPOL framing itself lives in
//! [`crate::ieee80211::eapol`]; this module handles the EAP packet codec and
//! the peer state machine.

use vstd::prelude::*;
use vstd::string::*;

use crate::bytes;
use crate::error::{ErrorKind, WifiError};

verus! {

/// EAP Code values (RFC 3748 §4.1).
pub const CODE_REQUEST: u8 = 1;

pub const CODE_RESPONSE: u8 = 2;

pub const CODE_SUCCESS: u8 = 3;

pub const CODE_FAILURE: u8 = 4;

/// EAP Type values (RFC 3748 §5 / IANA registry).
pub const TYPE_IDENTITY: u8 = 1;

pub const TYPE_NOTIFICATION: u8 = 2;

pub const TYPE_NAK: u8 = 3;

/// EAP-TLS (RFC 5216) / EAP-TLS 1.3 (RFC 9190).
pub const TYPE_TLS: u8 = 13;

/// Minimum EAP packet size: code(1) + identifier(1) + length(2).
pub const EAP_HDR_LEN: usize = 4;

/// EAP method MSK length in octets (RFC 3748 §7.10).
pub const MSK_LEN: usize = 64;

/// A parsed or built EAP packet. `type_` is `None` for Success / Failure,
/// which carry no Type field (RFC 3748 §4.2/4.3).
#[derive(Debug, Clone, PartialEq, Eq)]
#[non_exhaustive]
pub struct EapPacket {
    pub code: u8,
    pub identifier: u8,
    pub type_: Option<u8>,
    pub body: Vec<u8>,
}

/// What an EAP packet says.
#[verifier::ext_equal]
pub struct Packet {
    pub code: u8,
    pub identifier: u8,
    pub type_: Option<u8>,
    pub body: Seq<u8>,
}

impl View for EapPacket {
    type V = Packet;

    open spec fn view(&self) -> Packet {
        Packet {
            code: self.code,
            identifier: self.identifier,
            type_: self.type_,
            body: self.body@,
        }
    }
}

/// The Type field of a packet.
pub open spec fn type_octets(type_: Option<u8>) -> Seq<u8> {
    match type_ {
        Some(t) => seq![t],
        None => Seq::empty(),
    }
}

/// The octets of a packet: code(1) identifier(1) length(2) [type(1)] body.
/// The length field holds what 16 bits of the length hold.
pub open spec fn packet_octets(p: Packet) -> Seq<u8> {
    let length = EAP_HDR_LEN + type_octets(p.type_).len() + p.body.len();
    seq![p.code, p.identifier] + bytes::be16_bytes((length % 65536) as u16) + type_octets(p.type_)
        + p.body
}

/// The packet that octets start with, where they start with one.
pub open spec fn parsed_packet(pdu: Seq<u8>) -> Option<Packet> {
    let length = bytes::be16(pdu[2], pdu[3]);
    if pdu.len() < EAP_HDR_LEN || length < EAP_HDR_LEN || length > pdu.len() {
        None
    } else if pdu[0] == CODE_SUCCESS || pdu[0] == CODE_FAILURE {
        Some(
            Packet {
                code: pdu[0],
                identifier: pdu[1],
                type_: None,
                body: pdu.subrange(4, length as int),
            },
        )
    } else if (pdu[0] == CODE_REQUEST || pdu[0] == CODE_RESPONSE) && length >= EAP_HDR_LEN + 1 {
        Some(
            Packet {
                code: pdu[0],
                identifier: pdu[1],
                type_: Some(pdu[4]),
                body: pdu.subrange(5, length as int),
            },
        )
    } else {
        None
    }
}

impl EapPacket {
    /// Build an EAP packet: code(1) identifier(1) length(2) [type(1)] body.
    pub fn build(code: u8, identifier: u8, type_: Option<u8>, body: &[u8]) -> (r: Vec<u8>)
        ensures
            r@ == packet_octets((Packet { code, identifier, type_, body: body@ })),
    {
        let head: usize = if type_.is_some() {
            EAP_HDR_LEN + 1
        } else {
            EAP_HDR_LEN
        };
        let length: usize = (body.len() % 65536 + head) % 65536;
        proof {
            vstd::arithmetic::div_mod::lemma_add_mod_noop(
                body.len() as int,
                head as int,
                65536,
            );
            vstd::arithmetic::div_mod::lemma_add_mod_noop(
                (body.len() % 65536) as int,
                head as int,
                65536,
            );
        }
        let mut pdu: Vec<u8> = Vec::new();
        pdu.push(code);
        pdu.push(identifier);
        bytes::push_be16(&mut pdu, length as u16);
        if let Some(t) = type_ {
            pdu.push(t);
        }
        bytes::append(&mut pdu, body);
        assert(pdu@ =~= packet_octets(Packet { code, identifier, type_, body: body@ }));
        pdu
    }

    /// Parse an EAP packet. The length field bounds the packet; a trailing
    /// buffer (e.g. a full EAPOL frame) is ignored by the caller passing just
    /// the EAP payload.
    pub fn parse(pdu: &[u8]) -> (r: Option<Self>)
        ensures
            match r {
                Some(p) => parsed_packet(pdu@) == Some(p@),
                None => parsed_packet(pdu@) is None,
            },
    {
        if pdu.len() < EAP_HDR_LEN {
            return None;
        }
        let code: u8 = pdu[0];
        let identifier: u8 = pdu[1];
        let length: usize = bytes::read_be16(pdu, 2) as usize;
        if length < EAP_HDR_LEN || length > pdu.len() {
            return None;
        }
        if code == CODE_SUCCESS || code == CODE_FAILURE {
            return Some(
                EapPacket {
                    code,
                    identifier,
                    type_: None,
                    body: bytes::sub_vec(pdu, EAP_HDR_LEN, length),
                },
            );
        }
        if code == CODE_REQUEST || code == CODE_RESPONSE {
            if length < EAP_HDR_LEN + 1 {
                return None;
            }
            return Some(
                EapPacket {
                    code,
                    identifier,
                    type_: Some(pdu[4]),
                    body: bytes::sub_vec(pdu, EAP_HDR_LEN + 1, length),
                },
            );
        }
        None
    }

    pub fn is_success(&self) -> (r: bool)
        ensures
            r == (self.code == CODE_SUCCESS),
    {
        self.code == CODE_SUCCESS
    }

    pub fn is_failure(&self) -> (r: bool)
        ensures
            r == (self.code == CODE_FAILURE),
    {
        self.code == CODE_FAILURE
    }
}

/// A packet is read back from its octets, whatever follows them: a Request
/// or Response with a Type, a Success or Failure without one, as long as its
/// length fits the length field.
pub proof fn law_packet_roundtrip(p: Packet, trailing: Seq<u8>)
    requires
        p.code == CODE_REQUEST || p.code == CODE_RESPONSE ==> p.type_ is Some,
        p.code == CODE_SUCCESS || p.code == CODE_FAILURE ==> p.type_ is None,
        1 <= p.code <= 4,
        EAP_HDR_LEN + type_octets(p.type_).len() + p.body.len() < 65536,
    ensures
        parsed_packet(packet_octets(p) + trailing) == Some(p),
{
    let s = packet_octets(p) + trailing;
    let length = (EAP_HDR_LEN + type_octets(p.type_).len() + p.body.len()) as u16;
    bytes::lemma_u16_bytes(length);
    assert(s[2] == bytes::be16_bytes(length)[0] && s[3] == bytes::be16_bytes(length)[1]);
    let start = EAP_HDR_LEN + type_octets(p.type_).len();
    assert(s.subrange(start as int, length as int) =~= p.body);
}

/// One EAP method (e.g. EAP-TLS). The peer hands every method-type Request
/// to the active method; the method returns the Response body (EAP framing
/// is applied by [`EapPeer`]).
pub trait EapMethod: Send {
    /// This method's EAP Type.
    spec fn spec_type(&self) -> u8;

    /// The MSK, once the method completed.
    spec fn spec_msk(&self) -> Option<[u8; 64]>;

    /// Whether handling a Request may turn this method into `after` with the
    /// result `r`: the body of the Response, or the error.
    spec fn steps(
        &self,
        identifier: u8,
        body: Seq<u8>,
        after: &Self,
        r: Result<Vec<u8>, WifiError>,
    ) -> bool;

    /// This method's EAP Type (e.g. [`TYPE_TLS`]).
    fn method_type(&self) -> (t: u8)
        ensures
            t == self.spec_type(),
    ;

    /// Handle an EAP-Request of this method's type and return the
    /// EAP-Response body.
    fn handle_request(&mut self, identifier: u8, body: &[u8]) -> (r: Result<Vec<u8>, WifiError>)
        ensures
            old(self).steps(identifier, body@, &*final(self), r),
    ;

    /// The 64-octet MSK once the method completed, `None` before.
    fn msk(&self) -> (r: Option<[u8; 64]>)
        ensures
            r == self.spec_msk(),
    ;
}

/// What the caller should do after feeding a packet to
/// [`EapPeer::handle_packet`].
#[derive(Debug, Clone, PartialEq, Eq)]
#[non_exhaustive]
pub enum EapAction {
    /// Send this EAP-Response packet (already framed).
    Respond(Vec<u8>),
    /// EAP-Success: authentication complete, port authorized.
    Success,
    /// EAP-Failure: authentication rejected.
    Failure,
    /// Nothing to send; wait for the next authenticator packet.
    Wait,
}

/// What a packet asks of the peer.
pub enum Step {
    /// The authentication is complete.
    Success,
    /// The authentication is rejected.
    Failure,
    /// There is nothing to do.
    Wait,
    /// The packet is malformed.
    NoType,
    /// The peer answers by itself, with a Type and a body.
    Answer(u8, Seq<u8>),
    /// The active method has to answer.
    AskMethod,
}

/// The types that a Nak lists: those supported, without Identity and Nak.
pub open spec fn nak_types(supported: Seq<u8>) -> Seq<u8>
    decreases supported.len(),
{
    if supported.len() == 0 {
        Seq::empty()
    } else if supported.last() == TYPE_IDENTITY || supported.last() == TYPE_NAK {
        nak_types(supported.drop_last())
    } else {
        nak_types(supported.drop_last()).push(supported.last())
    }
}

/// What a packet asks of a peer with an identity, a list of supported types
/// and an active method of some type.
pub open spec fn step(
    identity: Seq<u8>,
    supported: Seq<u8>,
    method: Option<u8>,
    p: Packet,
) -> Step {
    if p.code == CODE_SUCCESS {
        Step::Success
    } else if p.code == CODE_FAILURE {
        Step::Failure
    } else if p.code != CODE_REQUEST {
        Step::Wait
    } else {
        match p.type_ {
            None => Step::NoType,
            Some(t) => if t == TYPE_IDENTITY {
                Step::Answer(TYPE_IDENTITY, identity)
            } else if t == TYPE_NOTIFICATION {
                Step::Answer(TYPE_NOTIFICATION, Seq::empty())
            } else if t == TYPE_NAK {
                Step::Wait
            } else if method == Some(t) {
                Step::AskMethod
            } else {
                Step::Answer(TYPE_NAK, nak_types(supported))
            },
        }
    }
}

/// The octets of a Response.
pub open spec fn response_octets(identifier: u8, type_: u8, body: Seq<u8>) -> Seq<u8> {
    packet_octets(Packet { code: CODE_RESPONSE, identifier, type_: Some(type_), body })
}

/// EAP peer state machine. Identity is handled here; method types are
/// delegated to an [`EapMethod`] when one is set, otherwise answered with a
/// Nak listing `supported_types`.
#[non_exhaustive]
pub struct EapPeer<M: EapMethod> {
    pub identity: String,
    pub method: Option<M>,
    pub supported_types: Vec<u8>,
}

impl<M: EapMethod> EapPeer<M> {
    /// The type of the active method.
    pub open spec fn method_kind(self) -> Option<u8> {
        match self.method {
            Some(m) => Some(m.spec_type()),
            None => None,
        }
    }

    /// The method's MSK, once the method completed.
    pub open spec fn msk_known(self) -> Option<[u8; 64]> {
        match self.method {
            Some(m) => m.spec_msk(),
            None => None,
        }
    }

    /// What a packet asks of this peer.
    pub open spec fn step(self, p: Packet) -> Step {
        step(vstd::utf8::encode_utf8(self.identity@), self.supported_types@, self.method_kind(), p)
    }

    pub fn new(identity: String) -> (r: Self)
        ensures
            r.identity == identity,
            r.method is None,
            r.supported_types@.len() == 0,
    {
        EapPeer { identity, method: None, supported_types: Vec::new() }
    }

    /// Install the active EAP method (e.g. EAP-TLS).
    pub fn set_method(&mut self, method: M)
        ensures
            final(self).identity == old(self).identity,
            final(self).supported_types == old(self).supported_types,
            final(self).method == Some(method),
    {
        self.method = Some(method);
    }

    /// The method's MSK, once the method completed.
    pub fn msk(&self) -> (r: Option<[u8; 64]>)
        ensures
            r == self.msk_known(),
    {
        match &self.method {
            Some(m) => m.msk(),
            None => None,
        }
    }

    /// The type of the active method.
    fn active_type(&self) -> (r: Option<u8>)
        ensures
            r == self.method_kind(),
    {
        match &self.method {
            Some(m) => Some(m.method_type()),
            None => None,
        }
    }

    /// The body of a Nak: the types we can do (RFC 3748 §5.3).
    fn nak_body(&self) -> (r: Vec<u8>)
        ensures
            r@ == nak_types(self.supported_types@),
    {
        let mut out: Vec<u8> = Vec::new();
        let mut i: usize = 0;
        while i < self.supported_types.len()
            invariant
                i <= self.supported_types@.len(),
                out@ == nak_types(self.supported_types@.take(i as int)),
            decreases self.supported_types@.len() - i,
        {
            let t: u8 = self.supported_types[i];
            assert(self.supported_types@.take(i + 1).drop_last() =~= self.supported_types@.take(
                i as int,
            ));
            if t != TYPE_IDENTITY && t != TYPE_NAK {
                out.push(t);
            }
            i = i + 1;
        }
        assert(self.supported_types@.take(i as int) =~= self.supported_types@);
        out
    }

    /// Whether this peer and `r` are what a Request for the active method of
    /// `before` gives, where the method answers it with `answer`: the method is
    /// asked once, a Response body is framed under the Request's identifier,
    /// and an error is handed on.
    pub open spec fn asked(
        self,
        before: Self,
        p: Packet,
        answer: Result<Vec<u8>, WifiError>,
        r: Result<EapAction, WifiError>,
    ) -> bool {
        &&& self == (EapPeer { method: self.method, ..before })
        &&& self.method is Some
        &&& before.method->0.steps(p.identifier, p.body, &self.method->0, answer)
        &&& match answer {
            Ok(body) => {
                &&& r matches Ok(EapAction::Respond(pdu))
                &&& pdu@ == response_octets(p.identifier, p.type_->0, body@)
            },
            Err(e) => r == Err::<EapAction, WifiError>(e),
        }
    }

    /// Feed an authenticator packet into the state machine. A method's own
    /// error is handed on.
    pub fn handle_packet(&mut self, packet: &EapPacket) -> (r: Result<EapAction, WifiError>)
        ensures
            final(self).identity == old(self).identity,
            final(self).supported_types == old(self).supported_types,
            final(self).method is Some <==> old(self).method is Some,
            r matches Ok(EapAction::Respond(pdu)) ==> pdu@[0] == CODE_RESPONSE && pdu@[1]
                == packet.identifier,
            match old(self).step(packet@) {
                Step::Success => r matches Ok(EapAction::Success) && *final(self) == *old(self),
                Step::Failure => r matches Ok(EapAction::Failure) && *final(self) == *old(self),
                Step::Wait => r matches Ok(EapAction::Wait) && *final(self) == *old(self),
                Step::NoType => {
                    &&& r matches Err(e)
                    &&& e.is(ErrorKind::HandshakeFailed, "EAP Request without a Type"@)
                    &&& *final(self) == *old(self)
                },
                Step::Answer(type_, body) => {
                    &&& r matches Ok(EapAction::Respond(pdu))
                    &&& pdu@ == response_octets(packet.identifier, type_, body)
                    &&& *final(self) == *old(self)
                },
                Step::AskMethod => exists|answer: Result<Vec<u8>, WifiError>| #[trigger]
                    final(self).asked(*old(self), packet@, answer, r),
            },
    {
        if packet.is_success() {
            return Ok(EapAction::Success);
        }
        if packet.is_failure() {
            return Ok(EapAction::Failure);
        }
        if packet.code != CODE_REQUEST {
            // A Response from the authenticator is not part of the supplicant
            // flow; ignore it.
            return Ok(EapAction::Wait);
        }
        let type_: u8 = match packet.type_ {
            Some(t) => t,
            None => {
                return Err(
                    WifiError::new(ErrorKind::HandshakeFailed, "EAP Request without a Type"),
                );
            },
        };
        let active = self.active_type();
        let response = if type_ == TYPE_IDENTITY {
            EapPacket::build(
                CODE_RESPONSE,
                packet.identifier,
                Some(TYPE_IDENTITY),
                self.identity.as_str().as_bytes(),
            )
        } else if type_ == TYPE_NOTIFICATION {
            // RFC 3748 §5.2: acknowledge with an empty Notification response.
            let empty: Vec<u8> = Vec::new();
            EapPacket::build(
                CODE_RESPONSE,
                packet.identifier,
                Some(TYPE_NOTIFICATION),
                empty.as_slice(),
            )
        } else if type_ == TYPE_NAK {
            // The authenticator answered our Nak; nothing to do.
            return Ok(EapAction::Wait);
        } else if active.is_some() && active.unwrap() == type_ {
            let answer = match &mut self.method {
                Some(method) => method.handle_request(packet.identifier, packet.body.as_slice()),
                None => Ok(Vec::new()),
            };
            let ghost given = answer;
            match answer {
                Ok(body) => {
                    let pdu = EapPacket::build(
                        CODE_RESPONSE,
                        packet.identifier,
                        Some(type_),
                        body.as_slice(),
                    );
                    assert(self.asked(*old(self), packet@, given, Ok(EapAction::Respond(pdu))));
                    pdu
                },
                Err(e) => {
                    assert(self.asked(*old(self), packet@, given, Err(e)));
                    return Err(e);
                },
            }
        } else {
            // Unknown / unsupported method: Nak with the types we can do (RFC
            // 3748 §5.3).
            let body = self.nak_body();
            EapPacket::build(CODE_RESPONSE, packet.identifier, Some(TYPE_NAK), body.as_slice())
        };
        Ok(EapAction::Respond(response))
    }
}

/// Every Request with a Type other than Nak is answered, unless it is for
/// the active method, and then by one Response with the Request's
/// identifier.
pub proof fn law_requests_are_answered(
    identity: Seq<u8>,
    supported: Seq<u8>,
    method: Option<u8>,
    p: Packet,
)
    requires
        p.code == CODE_REQUEST,
        p.type_ is Some,
        p.type_ != Some(TYPE_NAK),
    ensures
        match step(identity, supported, method, p) {
            Step::Answer(type_, _) => type_ == p.type_->0 || type_ == TYPE_NAK,
            Step::AskMethod => method == p.type_,
            _ => false,
        },
{
}

} // verus!
