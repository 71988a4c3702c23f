//! The 4-way handshake of the minimal supplicant (IEEE 802.11-2020 §12.7).
//! Supports the SAE AKM (00-0F-AC:8) with CCMP-128:
//!   - PMK: 32 bytes
//!   - KCK: 16 bytes (AES-CMAC key for MIC)
//!   - KEK: 16 bytes (AES Key Wrap key for GTK delivery)
//!   - TK: 16 bytes (CCMP-128 temporal key)

use vstd::prelude::*;
use vstd::string::*;

use aes_kw::KeyInit;
use cmac::Mac;

use crate::bytes;
use crate::crypto::handshake4;
use crate::crypto::kdf;
use crate::crypto::key_frames;
use crate::crypto::peer;
use crate::ieee80211::eapol;
use crate::ieee80211::tlv;
use crate::wpa3::error::{ErrorKind, WpaError};

verus! {

pub const KCK_LEN: usize = 16;

pub const KEK_LEN: usize = 16;

pub const TK_LEN: usize = 16;

pub const PTK_LEN: usize = 48;

pub const EAPOL_MIC_LEN: usize = 16;

/// The tag that `cmac::Cmac<Aes128>` computes under a key over octets.
pub uninterp spec fn cmac_tag(key: Seq<u8>, data: Seq<u8>) -> Seq<u8>;

/// What `aes_kw::KwAes128::unwrap_key` recovers from a wrapped key; none
/// where the integrity check fails.
pub uninterp spec fn kw_unwrapped(kek: Seq<u8>, wrapped: Seq<u8>) -> Option<Seq<u8>>;

/// What `aes_kw::KwAes128::wrap_key` makes of a key.
pub uninterp spec fn kw_wrapped(kek: Seq<u8>, plain: Seq<u8>) -> Seq<u8>;

/// `cmac::Cmac<Aes128>`, fed once and finalized: the tag of the octets. A
/// key of 16 octets is always accepted.
#[verifier::external_body]
fn compute_cmac(key: &[u8; 16], data: &[u8]) -> (r: [u8; 16])
    ensures
        r@ == cmac_tag(key@, data@),
{
    let mut mac = <cmac::Cmac<aes::Aes128> as cmac::KeyInit>::new(&(*key).into());
    mac.update(data);
    mac.finalize().into_bytes().into()
}

/// `aes_kw::KwAes128::unwrap_key` into a buffer of `plain_len` octets, 8
/// fewer than the input has, for an input of whole 8-octet blocks: the
/// recovered key fills the buffer, or the integrity check fails.
#[verifier::external_body]
fn unwrap_key(kek: &[u8; 16], wrapped: &[u8], plain_len: usize) -> (r: Option<Vec<u8>>)
    requires
        plain_len + 8 == wrapped@.len(),
        wrapped@.len() % 8 == 0,
    ensures
        match r {
            Some(plain) => kw_unwrapped(kek@, wrapped@) == Some(plain@),
            None => kw_unwrapped(kek@, wrapped@) is None,
        },
        r matches Some(plain) ==> plain@.len() + 8 == wrapped@.len(),
{
    let mut out = vec![0u8; plain_len];
    aes_kw::KwAes128::new(&(*kek).into()).unwrap_key(wrapped, &mut out).ok()?;
    Some(out)
}

/// `aes_kw::KwAes128::wrap_key` into a buffer of `wrapped_len` octets, 8 more
/// than the input has, for an input of whole 8-octet blocks: the wrapped key
/// fills the buffer, and unwrapping it under the same key gives the input
/// back.
#[verifier::external_body]
fn wrap_key(kek: &[u8; 16], plain: &[u8], wrapped_len: usize) -> (r: Vec<u8>)
    requires
        plain@.len() > 0,
        plain@.len() % 8 == 0,
        plain@.len() + 8 == wrapped_len,
    ensures
        r@ == kw_wrapped(kek@, plain@),
        r@.len() == plain@.len() + 8,
        kw_unwrapped(kek@, r@) == Some(plain@),
{
    let mut out = vec![0u8; wrapped_len];
    aes_kw::KwAes128::new(&(*kek).into()).wrap_key(plain, &mut out).unwrap();
    out
}

/// `getrandom::fill`, for 32 random octets; none where the system gives no
/// randomness.
#[verifier::external_body]
fn random_32() -> (r: Option<[u8; 32]>) {
    let mut out = [0u8; 32];
    getrandom::fill(&mut out).ok()?;
    Some(out)
}

/// 4-Way Handshake state (supplicant side).
#[derive(Clone, Debug)]
pub struct FourWayState {
    pub pmk: [u8; 32],
    pub mac_sta: [u8; 6],
    pub mac_ap: [u8; 6],
    pub anonce: Option<[u8; 32]>,
    pub snonce: [u8; 32],
    pub ptk: Option<[u8; PTK_LEN]>,
    pub replay_counter: u64,
    pub rsne: Vec<u8>,
    pub gtk: Option<Vec<u8>>,
    pub gtk_index: u8,
}

/// The pairwise transient key of two stations and their nonces.
pub open spec fn ptk_of(
    pmk: Seq<u8>,
    mac_ap: Seq<u8>,
    mac_sta: Seq<u8>,
    anonce: Seq<u8>,
    snonce: Seq<u8>,
) -> Seq<u8> {
    kdf::kdf_output(
        pmk,
        "Pairwise key expansion".spec_bytes(),
        handshake4::ptk_context(mac_ap, mac_sta, anonce, snonce),
        48,
    )
}

/// A PDU with its MIC filled in.
pub open spec fn sealed(kck: Seq<u8>, pdu: Seq<u8>) -> Seq<u8> {
    eapol::with_mic(pdu, pdu_mic(kck, pdu))
}

/// Whether `out` is a PDU with its 16-octet MIC filled in.
pub open spec fn is_sealed(out: Seq<u8>, kck: Seq<u8>, pdu: Seq<u8>) -> bool {
    &&& pdu_mic(kck, pdu).len() == 16
    &&& out == sealed(kck, pdu)
}

/// The MIC that belongs in a PDU: computed with the MIC field zero.
pub open spec fn pdu_mic(kck: Seq<u8>, pdu: Seq<u8>) -> Seq<u8> {
    cmac_tag(kck, eapol::with_mic(pdu, bytes::zeros(16)))
}

/// What unwrapping a key gives: the key, or the message of the error.
pub open spec fn key_unwrap(kek: Seq<u8>, wrapped: Seq<u8>) -> Result<Seq<u8>, Seq<char>> {
    if wrapped.len() < 16 || wrapped.len() % 8 != 0 {
        Err("invalid wrapped key length"@)
    } else {
        match kw_unwrapped(kek, wrapped) {
            Some(plain) => Ok(plain),
            None => Err("key unwrap: integrity check failed"@),
        }
    }
}

/// The key data of a frame in the clear.
pub open spec fn plain_key_data(kek: Seq<u8>, frame: eapol::EapolKeyFrame) -> Result<
    Seq<u8>,
    Seq<char>,
> {
    if frame.key_info & eapol::KEY_INFO_ENCRYPTED_DATA != 0 {
        key_unwrap(kek, frame.key_data@)
    } else {
        Ok(frame.key_data@)
    }
}

/// Whether an element is a GTK KDE that holds a key.
pub open spec fn is_gtk_kde(e: tlv::Element) -> bool {
    &&& e.id == 0xdd
    &&& e.body.len() >= 7
    &&& e.body.subrange(0, 4) == seq![0x00u8, 0x0f, 0xac, 0x01]
}

/// The key index and the key of the first GTK KDE among elements.
pub open spec fn first_gtk(list: Seq<tlv::Element>) -> Option<(u8, Seq<u8>)>
    decreases list.len(),
{
    if list.len() == 0 {
        None
    } else if is_gtk_kde(list[0]) {
        Some((list[0].body[4] & 0x03, list[0].body.subrange(6, list[0].body.len() as int)))
    } else {
        first_gtk(list.drop_first())
    }
}

impl FourWayState {
    /// The key confirmation key.
    pub open spec fn spec_kck(self) -> Seq<u8> {
        self.ptk->0@.subrange(0, 16)
    }

    /// The key encryption key.
    pub open spec fn spec_kek(self) -> Seq<u8> {
        self.ptk->0@.subrange(16, 32)
    }

    /// The GTK that a Message 3 carries, where it carries one.
    pub open spec fn message_3_gtk(self, frame: eapol::EapolKeyFrame) -> Option<(u8, Seq<u8>)> {
        if frame.key_data@.len() == 0 {
            None
        } else {
            first_gtk(tlv::elements_from(plain_key_data(self.spec_kek(), frame)->Ok_0, 0))
        }
    }

    /// Why a Message 3 is refused, where it is.
    pub open spec fn message_3_error(self, frame: eapol::EapolKeyFrame) -> Option<Seq<char>> {
        if self.ptk is None {
            Some("PTK not derived"@)
        } else if pdu_mic(self.spec_kck(), frame.raw@) != frame.key_mic@ {
            Some("MIC mismatch"@)
        } else if frame.key_data@.len() == 0 {
            None
        } else {
            match plain_key_data(self.spec_kek(), frame) {
                Err(msg) => Some(msg),
                Ok(_) => None,
            }
        }
    }

    /// A state in which no message has been seen yet, with a given SNonce.
    pub fn with_snonce(
        pmk: &[u8; 32],
        mac_sta: [u8; 6],
        mac_ap: [u8; 6],
        rsne: Vec<u8>,
        snonce: [u8; 32],
    ) -> (r: Self)
        ensures
            r == (FourWayState {
                pmk: *pmk,
                mac_sta,
                mac_ap,
                anonce: None,
                snonce,
                ptk: None,
                replay_counter: 0,
                rsne,
                gtk: None,
                gtk_index: 0,
            }),
    {
        FourWayState {
            pmk: *pmk,
            mac_sta,
            mac_ap,
            anonce: None,
            snonce,
            ptk: None,
            replay_counter: 0,
            rsne,
            gtk: None,
            gtk_index: 0,
        }
    }

    /// A state in which no message has been seen yet. The SNonce is random;
    /// the error is that the system gave no randomness.
    pub fn new(
        pmk: &[u8; 32],
        _pmkid: &[u8; 16],
        mac_sta: [u8; 6],
        mac_ap: [u8; 6],
        rsne: Vec<u8>,
    ) -> (r: Result<Self, WpaError>)
        ensures
            match r {
                Ok(s) => s == (FourWayState {
                    pmk: *pmk,
                    mac_sta,
                    mac_ap,
                    anonce: None,
                    snonce: s.snonce,
                    ptk: None,
                    replay_counter: 0,
                    rsne,
                    gtk: None,
                    gtk_index: 0,
                }),
                Err(e) => e.is(ErrorKind::HandshakeFailed, "RNG"@),
            },
    {
        match random_32() {
            Some(snonce) => Ok(FourWayState::with_snonce(pmk, mac_sta, mac_ap, rsne, snonce)),
            None => Err(WpaError::new(ErrorKind::HandshakeFailed, "RNG")),
        }
    }

    /// The pairwise transient key of this exchange, once the ANonce is known.
    pub fn derive_ptk(&self) -> (r: [u8; PTK_LEN])
        requires
            self.anonce is Some,
        ensures
            r@ == ptk_of(
                self.pmk@,
                self.mac_ap@,
                self.mac_sta@,
                self.anonce->0@,
                self.snonce@,
            ),
    {
        let anonce: [u8; 32] = match self.anonce {
            Some(anonce) => anonce,
            None => [0u8; 32],
        };
        let mut context: Vec<u8> = Vec::new();
        if handshake4::u64_from_mac(&self.mac_ap) < handshake4::u64_from_mac(&self.mac_sta) {
            bytes::append(&mut context, &self.mac_ap);
            bytes::append(&mut context, &self.mac_sta);
        } else {
            bytes::append(&mut context, &self.mac_sta);
            bytes::append(&mut context, &self.mac_ap);
        }
        if bytes::less(&anonce, &self.snonce) {
            bytes::append(&mut context, &anonce);
            bytes::append(&mut context, &self.snonce);
        } else {
            bytes::append(&mut context, &self.snonce);
            bytes::append(&mut context, &anonce);
        }
        assert(context@ =~= handshake4::ptk_context(
            self.mac_ap@,
            self.mac_sta@,
            anonce@,
            self.snonce@,
        ));
        let result = kdf::kdf(&self.pmk, "Pairwise key expansion", context.as_slice(), PTK_LEN);
        let ptk = bytes::array48(result.as_slice(), 0);
        assert(ptk@ =~= result@);
        ptk
    }

    pub fn kck(&self) -> (r: Option<[u8; KCK_LEN]>)
        ensures
            r is Some <==> self.ptk is Some,
            r matches Some(k) ==> k@ == self.spec_kck(),
    {
        match &self.ptk {
            Some(p) => Some(bytes::array16(p, 0)),
            None => None,
        }
    }

    pub fn kek(&self) -> (r: Option<[u8; KEK_LEN]>)
        ensures
            r is Some <==> self.ptk is Some,
            r matches Some(k) ==> k@ == self.spec_kek(),
    {
        match &self.ptk {
            Some(p) => Some(bytes::array16(p, 16)),
            None => None,
        }
    }

    pub fn tk(&self) -> (r: Option<[u8; TK_LEN]>)
        ensures
            r is Some <==> self.ptk is Some,
            r matches Some(k) ==> k@ == self.ptk->0@.subrange(32, 48),
    {
        match &self.ptk {
            Some(p) => Some(bytes::array16(p, 32)),
            None => None,
        }
    }

    pub fn gtk(&self) -> (r: Option<&[u8]>)
        ensures
            match r {
                Some(g) => self.gtk matches Some(v) && v@ == g@,
                None => self.gtk is None,
            },
    {
        match &self.gtk {
            Some(g) => Some(g.as_slice()),
            None => None,
        }
    }

    pub fn gtk_index(&self) -> (r: u8)
        ensures
            r == self.gtk_index,
    {
        self.gtk_index
    }

    pub fn snonce(&self) -> (r: &[u8; 32])
        ensures
            *r == self.snonce,
    {
        &self.snonce
    }

    pub fn anonce(&self) -> (r: Option<[u8; 32]>)
        ensures
            r == self.anonce,
    {
        self.anonce
    }

    pub fn replay_counter(&self) -> (r: u64)
        ensures
            r == self.replay_counter,
    {
        self.replay_counter
    }

    pub fn ptk(&self) -> (r: Option<[u8; PTK_LEN]>)
        ensures
            r == self.ptk,
    {
        self.ptk
    }

    /// Process Message 1 of the 4-way handshake (from AP, contains ANonce).
    /// Returns the serialized Message 2 PDU to send back.
    pub fn process_message_1(&mut self, anonce: &[u8; 32]) -> (r: Result<Vec<u8>, WpaError>)
        ensures
            *final(self) == (FourWayState {
                anonce: Some(*anonce),
                replay_counter: 1,
                ptk: final(self).ptk,
                ..*old(self)
            }),
            final(self).ptk matches Some(ptk) && ptk@ == ptk_of(
                old(self).pmk@,
                old(self).mac_ap@,
                old(self).mac_sta@,
                anonce@,
                old(self).snonce@,
            ),
            r matches Ok(msg2) && is_sealed(
                msg2@,
                final(self).spec_kck(),
                eapol::message_2_pdu(old(self).snonce@, 1, old(self).rsne@, 0),
            ),
    {
        self.anonce = Some(*anonce);
        self.replay_counter = 1;
        let ptk = self.derive_ptk();
        self.ptk = Some(ptk);
        let kck = bytes::array16(&ptk, 0);
        // Build Message 2 with a zeroed MIC, compute the MIC (AES-CMAC over the
        // entire EAPOL-Key PDU), then patch it in.
        let msg2 = eapol::build_message_2(&self.snonce, 1, self.rsne.as_slice());
        Ok(seal(&kck, msg2))
    }

    /// Process Message 3 of the 4-way handshake. Returns (Message 4 PDU,
    /// optional GTK).
    pub fn process_message_3(&mut self, frame: &eapol::EapolKeyFrame) -> (r: Result<
        (Vec<u8>, Option<Vec<u8>>),
        WpaError,
    >)
        ensures
            match old(self).message_3_error(*frame) {
                None => {
                    &&& r matches Ok((msg4, gtk))
                    &&& is_sealed(
                        msg4@,
                        old(self).spec_kck(),
                        eapol::message_4_pdu(old(self).snonce@, frame.replay_counter, 0),
                    )
                    &&& match old(self).message_3_gtk(*frame) {
                        Some((idx, key)) => {
                            &&& gtk matches Some(g)
                            &&& g@ == key
                            &&& final(self).gtk matches Some(h)
                            &&& h@ == key
                            &&& *final(self) == (FourWayState {
                                replay_counter: frame.replay_counter,
                                gtk: final(self).gtk,
                                gtk_index: idx,
                                ..*old(self)
                            })
                        },
                        None => {
                            &&& gtk is None
                            &&& *final(self) == (FourWayState {
                                replay_counter: frame.replay_counter,
                                ..*old(self)
                            })
                        },
                    }
                },
                Some(msg) => {
                    &&& r matches Err(e)
                    &&& e.is(ErrorKind::HandshakeFailed, msg)
                    &&& *final(self) == (FourWayState {
                        replay_counter: frame.replay_counter,
                        ..*old(self)
                    })
                },
            },
    {
        self.replay_counter = frame.replay_counter;
        let (kck, kek) = match (self.kck(), self.kek()) {
            (Some(kck), Some(kek)) => (kck, kek),
            _ => {
                return Err(WpaError::new(ErrorKind::HandshakeFailed, "PTK not derived"));
            },
        };
        // Verify MIC over the received PDU with the MIC field zeroed.
        let zeroed = eapol::pdu_with_zeroed_mic(frame.raw.as_slice());
        let expected = compute_cmac(&kck, zeroed.as_slice());
        if !bytes::same(&expected, &frame.key_mic) {
            return Err(WpaError::new(ErrorKind::HandshakeFailed, "MIC mismatch"));
        }
        // Extract the GTK from the (AES-Key-Wrapped) key data KDEs.
        let mut gtk: Option<Vec<u8>> = None;
        if frame.key_data.len() > 0 {
            let plain = if frame.is_encrypted_data() {
                match aes_key_unwrap(&kek, frame.key_data.as_slice()) {
                    Ok(plain) => plain,
                    Err(e) => {
                        return Err(e);
                    },
                }
            } else {
                bytes::to_vec(frame.key_data.as_slice())
            };
            if let Some((idx, key)) = parse_gtk_kde(plain.as_slice()) {
                self.gtk_index = idx;
                self.gtk = Some(bytes::to_vec(key.as_slice()));
                gtk = Some(key);
            }
        }
        // Build Message 4 (zeroed MIC) and compute its MIC.
        let msg4 = eapol::build_message_4(&self.snonce, self.replay_counter);
        Ok((seal(&kck, msg4), gtk))
    }
}

/// Fill in the MIC of a PDU.
fn seal(kck: &[u8; KCK_LEN], pdu: Vec<u8>) -> (r: Vec<u8>)
    ensures
        is_sealed(r@, kck@, pdu@),
{
    let mut pdu = pdu;
    let zeroed = eapol::pdu_with_zeroed_mic(pdu.as_slice());
    let mic = compute_cmac(kck, zeroed.as_slice());
    eapol::set_mic(pdu.as_mut_slice(), &mic);
    pdu
}

/// Compute AES-128-CMAC over arbitrary bytes (the EAPOL-Key MIC for the SAE
/// AKM with CCMP-128).
pub fn aes_cmac(kck: &[u8; KCK_LEN], data: &[u8]) -> (r: Result<[u8; EAPOL_MIC_LEN], WpaError>)
    ensures
        r matches Ok(mic) && mic@ == cmac_tag(kck@, data@),
{
    Ok(compute_cmac(kck, data))
}

/// Parse a GTK KDE from (decrypted) EAPOL-Key key data. Returns (key index,
/// GTK). Key data is a sequence of KDEs/IEs; the GTK KDE has element id 0xDD,
/// OUI 00-0F-AC, data type 1, followed by a key-info octet (low 2 bits = key
/// id), a reserved octet, then the GTK. A KDE whose GTK is empty is passed
/// over.
pub fn parse_gtk_kde(key_data: &[u8]) -> (r: Option<(u8, Vec<u8>)>)
    ensures
        match r {
            Some((idx, gtk)) => first_gtk(tlv::elements_from(key_data@, 0)) == Some((idx, gtk@)),
            None => first_gtk(tlv::elements_from(key_data@, 0)) is None,
        },
{
    let mut pos: usize = 0;
    loop
        invariant
            pos <= key_data@.len(),
            first_gtk(tlv::elements_from(key_data@, 0)) == first_gtk(
                tlv::elements_from(key_data@, pos as int),
            ),
        decreases key_data@.len() - pos,
    {
        match tlv::next_end(key_data, pos) {
            None => {
                return None;
            },
            Some(end) => {
                let ghost e = tlv::element_at(key_data@, pos as int);
                proof {
                    let list = tlv::elements_from(key_data@, pos as int);
                    assert(list[0] == e);
                    assert(list.drop_first() =~= tlv::elements_from(key_data@, end as int));
                }
                let at: usize = pos + 2;
                if key_data[pos] == 0xDD && end - at >= 7 && key_data[at] == 0x00 && key_data[at
                    + 1] == 0x0F && key_data[at + 2] == 0xAC && key_data[at + 3] == 0x01 {
                    assert(e.body.subrange(0, 4) =~= seq![0x00u8, 0x0f, 0xac, 0x01]);
                    let gtk = bytes::sub_vec(key_data, at + 6, end);
                    assert(gtk@ =~= e.body.subrange(6, e.body.len() as int));
                    return Some((key_data[at + 4] & 0x03, gtk));
                }
                proof {
                    if is_gtk_kde(e) {
                        let head = e.body.subrange(0, 4);
                        assert(head[0] == 0x00 && head[1] == 0x0f && head[2] == 0xac && head[3]
                            == 0x01);
                        assert(e.body[0] == head[0] && e.body[1] == head[1] && e.body[2] == head[2]
                            && e.body[3] == head[3]);
                    }
                }
                pos = end;
            },
        }
    }
}

/// AES Key Unwrap (RFC 3394) for GTK extraction.
pub fn aes_key_unwrap(kek: &[u8; KEK_LEN], wrapped: &[u8]) -> (r: Result<Vec<u8>, WpaError>)
    ensures
        match r {
            Ok(plain) => key_unwrap(kek@, wrapped@) == Ok::<Seq<u8>, Seq<char>>(plain@),
            Err(e) => e.kind == ErrorKind::HandshakeFailed && key_unwrap(kek@, wrapped@) == Err::<
                Seq<u8>,
                Seq<char>,
            >(e.msg@),
        },
{
    if wrapped.len() < 16 || wrapped.len() % 8 != 0 {
        return Err(WpaError::new(ErrorKind::HandshakeFailed, "invalid wrapped key length"));
    }
    match unwrap_key(kek, wrapped, wrapped.len() - 8) {
        Some(plain) => Ok(plain),
        None => Err(
            WpaError::new(ErrorKind::HandshakeFailed, "key unwrap: integrity check failed"),
        ),
    }
}

/// AES Key Wrap (RFC 3394), the inverse of [`aes_key_unwrap`]: what it makes
/// of a key, unwrapping under the same KEK turns back into the key.
pub fn aes_key_wrap(kek: &[u8; KEK_LEN], plaintext: &[u8]) -> (r: Result<Vec<u8>, WpaError>)
    requires
        plaintext@.len() > 0,
        plaintext@.len() + 8 <= usize::MAX,
    ensures
        match r {
            Ok(wrapped) => {
                &&& plaintext@.len() % 8 == 0
                &&& wrapped@ == kw_wrapped(kek@, plaintext@)
                &&& wrapped@.len() == plaintext@.len() + 8
                &&& key_unwrap(kek@, wrapped@) == Ok::<Seq<u8>, Seq<char>>(plaintext@)
            },
            Err(e) => {
                &&& plaintext@.len() % 8 != 0
                &&& e.is(
                    ErrorKind::HandshakeFailed,
                    "key wrap: data must be a multiple of 64 bits for AES-KW and less than 2^32 bytes for AES-KWP"@,
                )
            },
        },
{
    if plaintext.len() % 8 != 0 {
        return Err(
            WpaError::new(
                ErrorKind::HandshakeFailed,
                "key wrap: data must be a multiple of 64 bits for AES-KW and less than 2^32 bytes for AES-KWP",
            ),
        );
    }
    Ok(wrap_key(kek, plaintext, plaintext.len() + 8))
}

/// A sealed PDU carries the MIC that its receiver computes: filling in the
/// MIC does not change what the MIC is computed over.
pub proof fn law_sealed_pdu_verifies(kck: Seq<u8>, pdu: Seq<u8>, out: Seq<u8>)
    requires
        pdu.len() >= eapol::OFF_DATA,
        is_sealed(out, kck, pdu),
    ensures
        pdu_mic(kck, out) == out.subrange(81, 97),
{
    eapol::law_zeroed_mic_ignores_mic(pdu, pdu_mic(kck, pdu));
}

/// Message 2 on the wire: the Pairwise and MIC bits (3 and 8) alone in its Key
/// Information, our nonce, the counter and the RSNE in their places, and in its
/// MIC field the AES-CMAC of the frame without it.
pub proof fn law_message_2_on_the_wire(
    out: Seq<u8>,
    kck: Seq<u8>,
    snonce: Seq<u8>,
    replay_counter: u64,
    rsne: Seq<u8>,
)
    requires
        snonce.len() == 32,
        rsne.len() < 0x1_0000 - 95,
        is_sealed(out, kck, eapol::message_2_pdu(snonce, replay_counter, rsne, 0)),
    ensures
        key_frames::reads_as(out, replay_counter, snonce, Seq::new(8, |i: int| 0u8), rsne),
        key_frames::key_information(out) == 0x0108,
        out.subrange(81, 97) == cmac_tag(kck, key_frames::without_mic(out)),
{
    let zero = bytes::zeros(8);
    let mic = bytes::zeros(16);
    let pdu = eapol::message_2_pdu(snonce, replay_counter, rsne, 0);
    assert(0x0008u16 | 0x0100u16 | 0u16 == 0x0108u16) by (bit_vector);
    key_frames::lemma_built_fields(0x0108, replay_counter, snonce, zero, mic, rsne);
    key_frames::lemma_mic_keeps_fields(
        pdu,
        pdu_mic(kck, pdu),
        replay_counter,
        snonce,
        zero,
        rsne,
    );
    assert(zero =~= Seq::new(8, |i: int| 0u8));
}

/// Message 4 on the wire: the Pairwise, MIC and Secure bits (3, 8 and 9) alone
/// in its Key Information, the counter of Message 3 and no key data, and in its
/// MIC field the AES-CMAC of the frame without it.
pub proof fn law_message_4_on_the_wire(
    out: Seq<u8>,
    kck: Seq<u8>,
    snonce: Seq<u8>,
    replay_counter: u64,
)
    requires
        snonce.len() == 32,
        is_sealed(out, kck, eapol::message_4_pdu(snonce, replay_counter, 0)),
    ensures
        key_frames::reads_as(
            out,
            replay_counter,
            snonce,
            Seq::new(8, |i: int| 0u8),
            Seq::empty(),
        ),
        key_frames::key_information(out) == 0x0308,
        out.subrange(81, 97) == cmac_tag(kck, key_frames::without_mic(out)),
{
    let zero = bytes::zeros(8);
    let mic = bytes::zeros(16);
    let none = Seq::<u8>::empty();
    let pdu = eapol::message_4_pdu(snonce, replay_counter, 0);
    assert(0x0008u16 | 0x0100u16 | 0x0200u16 | 0u16 == 0x0308u16) by (bit_vector);
    key_frames::lemma_built_fields(0x0308, replay_counter, snonce, zero, mic, none);
    key_frames::lemma_mic_keeps_fields(
        pdu,
        pdu_mic(kck, pdu),
        replay_counter,
        snonce,
        zero,
        none,
    );
    assert(zero =~= Seq::new(8, |i: int| 0u8));
}

/// The pairwise key is the one that the access point derives: by the SHA-256
/// KDF over both addresses and both nonces, the lesser of each pair first.
pub proof fn law_pairwise_key_agrees(
    pmk: Seq<u8>,
    mac_ap: Seq<u8>,
    mac_sta: Seq<u8>,
    anonce: Seq<u8>,
    snonce: Seq<u8>,
)
    requires
        mac_ap.len() == 6,
        mac_sta.len() == 6,
        anonce.len() == 32,
        snonce.len() == 32,
    ensures
        ptk_of(pmk, mac_ap, mac_sta, anonce, snonce) == peer::kdf_384(
            pmk,
            peer::octets_pairwise(),
            peer::lesser_first(mac_ap, mac_sta, anonce, snonce),
        ),
{
    peer::law_pairwise_key_agrees(
        handshake4::MicAlg::AesCmac,
        pmk,
        mac_ap,
        mac_sta,
        anonce,
        snonce,
    );
}

/// The group key of a Message 3 is that of the first GTK KDE: a vendor element
/// of the OUI 00-0F-AC and type 1 with a key of at least one octet.
pub proof fn law_first_gtk_from_octets(list: Seq<tlv::Element>, j: int)
    requires
        0 <= j < list.len(),
        list[j].id == 0xdd,
        list[j].body.len() >= 7,
        list[j].body[0] == 0 && list[j].body[1] == 0x0f && list[j].body[2] == 0xac,
        list[j].body[3] == 1,
        forall|k: int|
            0 <= k < j ==> !((#[trigger] list[k]).id == 0xdd && list[k].body.len() >= 7
                && list[k].body[0] == 0 && list[k].body[1] == 0x0f && list[k].body[2] == 0xac
                && list[k].body[3] == 1),
    ensures
        first_gtk(list) == Some(
            (list[j].body[4] & 3, list[j].body.subrange(6, list[j].body.len() as int)),
        ),
    decreases j,
{
    let first = list[0];
    if first.body.len() >= 7 {
        let head = first.body.subrange(0, 4);
        assert(head[0] == first.body[0] && head[1] == first.body[1]);
        assert(head[2] == first.body[2] && head[3] == first.body[3]);
        if j == 0 {
            assert(head =~= seq![0x00u8, 0x0f, 0xac, 0x01]);
        }
    }
    if j > 0 {
        let rest = list.drop_first();
        assert(forall|k: int| 0 <= k < rest.len() ==> #[trigger] rest[k] == list[k + 1]);
        law_first_gtk_from_octets(rest, j - 1);
    }
}

/// A Message 3 is taken only with a derived pairwise key, and only where its MIC
/// field (octets 81 to 96) holds the AES-CMAC, under the first 16 octets of that
/// key, of the frame with zeros there.
pub proof fn law_accepted_message_3_is_authentic(
    fw: FourWayState,
    frame: eapol::EapolKeyFrame,
)
    requires
        eapol::is_key_pdu(frame.raw@),
        frame.decodes(frame.raw@),
        fw.message_3_error(frame) is None,
    ensures
        fw.ptk is Some,
        frame.raw@.subrange(81, 97) == cmac_tag(
            fw.ptk->0@.subrange(0, 16),
            key_frames::without_mic(frame.raw@),
        ),
{
    let pdu = frame.raw@;
    assert(key_frames::without_mic(pdu) =~= eapol::with_mic(pdu, bytes::zeros(16)));
}

/// Key data with the Encrypted Key Data bit (bit 12) is unwrapped with octets 16
/// to 31 of the pairwise key; without the bit it is taken as it is.
pub proof fn law_key_data_in_the_clear(fw: FourWayState, frame: eapol::EapolKeyFrame)
    requires
        fw.ptk is Some,
    ensures
        frame.key_info & 0x1000 == 0 ==> plain_key_data(fw.spec_kek(), frame) == Ok::<
            Seq<u8>,
            Seq<char>,
        >(frame.key_data@),
        frame.key_info & 0x1000 != 0 ==> ({
            let plain = kw_unwrapped(fw.ptk->0@.subrange(16, 32), frame.key_data@);
            plain_key_data(fw.spec_kek(), frame) matches Ok(d) ==> plain == Some(d)
        }),
{
}

} // verus!
