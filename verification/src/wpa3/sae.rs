//! The SAE exchange of the minimal supplicant: hash-to-element, group 19
//! (P-256). Unlike the full exchange it takes any octets for the peer's
//! scalar: they are cut or padded to a scalar's length, and a value that is
//! no scalar counts as zero.

use vstd::prelude::*;
use vstd::string::*;

use crate::bytes;
use crate::crypto::curve;
use crate::crypto::sae;
use crate::wpa3::error::{ErrorKind, WpaError};

verus! {

/// SAE handshake state machine (supplicant side, H2E group 19).
#[derive(Clone, Debug)]
pub struct SaeState {
    pub exchange: sae::SaeAuth,
}

/// Octets cut or padded with zeros to the length of a scalar.
pub open spec fn fitted(b: Seq<u8>) -> Seq<u8> {
    if b.len() >= 32 {
        b.subrange(0, 32)
    } else {
        b + bytes::zeros((32 - b.len()) as nat)
    }
}

/// The scalar that a peer's octets stand for: zero where they are not below
/// the group order.
pub open spec fn tolerant_scalar(b: Seq<u8>) -> Seq<u8> {
    if bytes::be_nat(fitted(b)) < curve::order() {
        fitted(b)
    } else {
        bytes::zeros(32)
    }
}

/// The scalar that a peer's octets stand for.
fn scalar_from_bytes(b: &[u8]) -> (r: [u8; 32])
    ensures
        r@ == tolerant_scalar(b@),
        bytes::be_nat(r@) < curve::order(),
{
    let zero: [u8; 32] = [0u8; 32];
    proof {
        assert(zero@ =~= bytes::zeros(32));
        sae::lemma_be_nat_zeros(32);
        curve::lemma_order();
    }
    let mut arr: [u8; 32] = [0u8; 32];
    let len: usize = if b.len() < 32 {
        b.len()
    } else {
        32
    };
    let mut i: usize = 0;
    while i < len
        invariant
            i <= len <= 32,
            len <= b@.len(),
            arr@.len() == 32,
            forall|j: int| 0 <= j < i ==> arr@[j] == b@[j],
            forall|j: int| i <= j < 32 ==> arr@[j] == 0,
        decreases len - i,
    {
        arr[i] = b[i];
        i = i + 1;
    }
    assert(arr@ =~= fitted(b@));
    if curve::is_scalar(&arr) {
        arr
    } else {
        zero
    }
}

/// An error of the exchange as one of the minimal supplicant.
fn failed(e: crate::WifiError) -> (r: WpaError)
    ensures
        r.is(ErrorKind::SaeFailed, e.msg@),
{
    WpaError { kind: ErrorKind::SaeFailed, msg: e.msg }
}

/// The password element by hash-to-element.
pub fn compute_pwe_h2e(
    password: &str,
    ssid: &str,
    mac_sta: &[u8; 6],
    mac_ap: &[u8; 6],
) -> (r: Result<curve::CurvePoint, WpaError>)
    ensures
        ({
            let pt = sae::password_token(ssid.spec_bytes(), password.spec_bytes());
            let pwe = sae::pwe_h2e(password.spec_bytes(), ssid.spec_bytes(), mac_sta@, mac_ap@);
            match r {
                Ok(p) => {
                    &&& pt != seq![0u8]
                    &&& pwe != seq![0u8]
                    &&& p.valid()
                    &&& p@ == pwe
                },
                Err(e) => {
                    ||| pt == seq![0u8] && e.is(ErrorKind::SaeFailed, "PT is identity"@)
                    ||| pt != seq![0u8] && pwe == seq![0u8] && e.is(
                        ErrorKind::SaeFailed,
                        "PWE is identity"@,
                    )
                },
            }
        }),
{
    match sae::compute_pwe_h2e(password, ssid, mac_sta, mac_ap) {
        Ok(pwe) => Ok(pwe),
        Err(e) => Err(failed(e)),
    }
}

impl SaeState {
    /// What holds of every exchange.
    pub open spec fn wf(self) -> bool {
        self.exchange.wf()
    }

    /// Create a new SAE state. The PWE is derived immediately via H2E.
    pub fn new(password: &str, ssid: &str, mac_sta: [u8; 6], mac_ap: [u8; 6]) -> (r: Result<
        Self,
        WpaError,
    >)
        ensures
            ({
                let pt = sae::password_token(ssid.spec_bytes(), password.spec_bytes());
                let pwe = sae::pwe_h2e(password.spec_bytes(), ssid.spec_bytes(), mac_sta@, mac_ap@);
                match r {
                    Ok(s) => {
                        &&& pt != seq![0u8]
                        &&& pwe != seq![0u8]
                        &&& s.wf()
                        &&& s.exchange.is_new()
                        &&& s.exchange.h2e
                        &&& s.exchange.pwe@ == pwe
                    },
                    Err(e) => {
                        ||| pt == seq![0u8] && e.is(ErrorKind::SaeFailed, "PT is identity"@)
                        ||| pt != seq![0u8] && pwe == seq![0u8] && e.is(
                            ErrorKind::SaeFailed,
                            "PWE is identity"@,
                        )
                    },
                }
            }),
    {
        match compute_pwe_h2e(password, ssid, &mac_sta, &mac_ap) {
            Ok(pwe) => Ok(SaeState { exchange: sae::SaeAuth::with_pwe(pwe, true, false, None) }),
            Err(e) => Err(e),
        }
    }

    /// SAE group identifier (19 = P-256).
    pub fn group_id(&self) -> (r: u16)
        ensures
            r == sae::SAE_GROUP19_ID,
            r == 19,
    {
        self.exchange.group_id()
    }

    /// Generate our commit (scalar + element) from two secrets.
    pub fn build_commit_with(&mut self, rand: &[u8; 32], mask: &[u8; 32]) -> (r: (
        Vec<u8>,
        Vec<u8>,
    ))
        requires
            old(self).wf(),
            0 < bytes::be_nat(rand@) < curve::order(),
            0 < bytes::be_nat(mask@) < curve::order(),
        ensures
            final(self).wf(),
            final(self).exchange.committed(old(self).exchange, rand@, mask@),
            r.0@ == final(self).exchange.own_scalar@,
            r.1@ == final(self).exchange.own_elem@,
    {
        self.exchange.build_commit_with(rand, mask)
    }

    /// Generate our commit (scalar + element) with fresh random secrets. The
    /// error is that the system gave no randomness; then nothing changes.
    pub fn build_commit(&mut self) -> (r: Result<(Vec<u8>, Vec<u8>), WpaError>)
        requires
            old(self).wf(),
        ensures
            final(self).wf(),
            match r {
                Ok((scalar, elem)) => {
                    &&& final(self).exchange.commits(old(self).exchange)
                    &&& scalar@ == final(self).exchange.own_scalar@
                    &&& elem@ == final(self).exchange.own_elem@
                },
                Err(e) => *final(self) == *old(self) && e.kind == ErrorKind::SaeFailed,
            },
    {
        match self.exchange.build_commit() {
            Ok(commit) => Ok(commit),
            Err(e) => Err(failed(e)),
        }
    }

    /// Process peer's commit (scalar + element). Derives KCK/PMK/PMKID and
    /// returns our confirm value (32-byte CN output).
    pub fn process_commit(&mut self, peer_scalar_bytes: &[u8], peer_elem_bytes: &[u8]) -> (r: Result<
        Vec<u8>,
        WpaError,
    >)
        requires
            old(self).wf(),
        ensures
            final(self).wf(),
            old(self).exchange.shares_by_log(
                tolerant_scalar(peer_scalar_bytes@),
                peer_elem_bytes@,
            ),
            match old(self).exchange.element_error(
                tolerant_scalar(peer_scalar_bytes@),
                peer_elem_bytes@,
            ) {
                None => {
                    &&& r matches Ok(confirm)
                    &&& final(self).exchange.derived(
                        old(self).exchange,
                        tolerant_scalar(peer_scalar_bytes@),
                        peer_elem_bytes@,
                    )
                    &&& confirm@ == final(self).exchange.own_confirm(
                        peer_scalar_bytes@,
                        peer_elem_bytes@,
                    )
                    &&& confirm@.len() == 32
                },
                Some(msg) => {
                    &&& r matches Err(e)
                    &&& e.is(ErrorKind::SaeFailed, msg)
                    &&& *final(self) == *old(self)
                },
            },
    {
        let peer_scalar = scalar_from_bytes(peer_scalar_bytes);
        match self.exchange.derive_keys(&peer_scalar, peer_elem_bytes) {
            Ok(()) => {},
            Err(e) => {
                return Err(failed(e));
            },
        }
        match self.exchange.build_confirm(peer_scalar_bytes, peer_elem_bytes) {
            Some(confirm) => Ok(confirm),
            None => Err(WpaError::new(ErrorKind::SaeFailed, "no KCK derived")),
        }
    }

    /// Process peer's confirm message body: `send_confirm(2 LE) || CN(32)`.
    pub fn process_confirm(&self, peer_confirm_body: &[u8]) -> (r: Result<[u8; 32], WpaError>)
        requires
            self.wf(),
        ensures
            match self.exchange.confirm_error(peer_confirm_body@) {
                None => r matches Ok(pmk) && self.exchange.pmk == Some(pmk),
                Some(msg) => r matches Err(e) && e.is(ErrorKind::SaeFailed, msg),
            },
    {
        match self.exchange.check_confirm(peer_confirm_body) {
            Ok(pmk) => Ok(pmk),
            Err(e) => Err(failed(e)),
        }
    }

    pub fn pmk(&self) -> (r: Option<[u8; 32]>)
        ensures
            r == self.exchange.pmk,
    {
        self.exchange.pmk()
    }

    pub fn pmkid(&self) -> (r: Option<[u8; 16]>)
        ensures
            r == self.exchange.pmkid,
    {
        self.exchange.pmkid()
    }
}

/// Both sides of an exchange over one PWE arrive at the same keys: from
/// their commits, made from any secrets, and each from the other's commit,
/// they derive one PMK and one PMKID, and the confirm that the one makes is
/// the one that the other expects.
pub proof fn law_exchange_agrees(
    a0: SaeState,
    a1: SaeState,
    a2: SaeState,
    b0: SaeState,
    b1: SaeState,
    b2: SaeState,
    r1: Seq<u8>,
    m1: Seq<u8>,
    r2: Seq<u8>,
    m2: Seq<u8>,
)
    requires
        a0.exchange.pwe@ == b0.exchange.pwe@,
        bytes::be_nat(r1) < curve::order(),
        bytes::be_nat(m1) < curve::order(),
        bytes::be_nat(r2) < curve::order(),
        bytes::be_nat(m2) < curve::order(),
        a1.exchange.committed(a0.exchange, r1, m1),
        b1.exchange.committed(b0.exchange, r2, m2),
        ({
            let sa = tolerant_scalar(a1.exchange.own_scalar@);
            let sb = tolerant_scalar(b1.exchange.own_scalar@);
            let (ea, eb) = (a1.exchange.own_elem@, b1.exchange.own_elem@);
            &&& a1.exchange.shares_by_log(sb, eb)
            &&& b1.exchange.shares_by_log(sa, ea)
            &&& a2.exchange.derived(a1.exchange, sb, eb)
            &&& b2.exchange.derived(b1.exchange, sa, ea)
            &&& curve::decoded_element(ea) != seq![0u8]
            &&& curve::decoded_element(eb) != seq![0u8]
        }),
    ensures
        a2.exchange.pmk->0@ == b2.exchange.pmk->0@,
        a2.exchange.pmkid->0@ == b2.exchange.pmkid->0@,
        b2.exchange.expected_confirm(1) == a2.exchange.own_confirm(
            b1.exchange.own_scalar@,
            b1.exchange.own_elem@,
        ),
{
    let (sa, sb) = (a1.exchange.own_scalar@, b1.exchange.own_scalar@);
    curve::lemma_order();
    assert(fitted(sa) =~= sa);
    assert(fitted(sb) =~= sb);
    sae::law_exchange_agrees(
        a0.exchange,
        a1.exchange,
        a2.exchange,
        b0.exchange,
        b1.exchange,
        b2.exchange,
        r1,
        m1,
        r2,
        m2,
    );
}

/// A scalar of the peer is its first 32 octets; a shorter one is padded with
/// zeros behind, and one that is not below the group order counts as zero.
pub proof fn law_tolerated_scalars(b: Seq<u8>)
    ensures
        ({
            let s = tolerant_scalar(b);
            let first = Seq::new(
                32,
                |i: int|
                    if i < b.len() {
                        b[i]
                    } else {
                        0u8
                    },
            );
            &&& s.len() == 32
            &&& bytes::be_nat(first) < curve::order() ==> s == first
            &&& bytes::be_nat(first) >= curve::order() ==> forall|i: int|
                0 <= i < 32 ==> s[i] == 0
        }),
{
    let first = Seq::new(
        32,
        |i: int|
            if i < b.len() {
                b[i]
            } else {
                0u8
            },
    );
    assert(fitted(b) =~= first);
}

} // verus!
