//! Simultaneous Authentication of Equals (SAE) / Dragonfly handshake.
//! Implements H2E (Hash-to-Element) for group 19 (P-256) with a
//! hunting-and-pecking (HnP) fallback for HnP-only APs.
//!
//! Reference: IEEE 802.11-2020 §12.4, RFC 7664, RFC 9380 (SSWU).

use vstd::prelude::*;
use vstd::string::*;

use crate::bytes;
use crate::crypto::curve;
use crate::crypto::handshake4;
use crate::crypto::kdf;
use crate::crypto::primitives;
use crate::error::{ErrorKind, WifiError};
use crate::text;

verus! {

pub const SAE_GROUP19_ID: u16 = 19;

/// IEEE 802.11 status code for an H2E SAE commit (802.11-2020 §12.4.4.4).
pub const SAE_STATUS_H2E: u16 = 126;

/// IEEE 802.11 status code 76: anti-clogging token required.
pub const SAE_STATUS_ANTI_CLOGGING: u16 = 76;

/// IEEE 802.11 status code 123: unknown password identifier.
pub const SAE_STATUS_UNKNOWN_PASSWORD_IDENTIFIER: u16 = 123;

/// Element ID of an extended element.
pub const ELEMENT_ID_EXTENSION: u8 = 255;

/// Element ID extension of the Anti-Clogging Token Container element (inside
/// the extended element, 802.11-2020 §9.4.2.47.4).
pub const EXT_ANTI_CLOGGING_TOKEN: u8 = 93;

/// Element ID extension of the Password Identifier element.
pub const EXT_PASSWORD_IDENTIFIER: u8 = 33;

/// How many octets of a password identifier fit in its element.
pub const PASSWORD_ID_MAX_LEN: usize = 254;

/// Number of hunting-and-pecking iterations before giving up (the PWE is
/// found within a few).
pub const HNP_MAX_ITER: u16 = 200;

/// A number as `len` octets, most significant first.
pub open spec fn be_bytes(n: nat, len: nat) -> Seq<u8>
    decreases len,
{
    if len == 0 {
        Seq::empty()
    } else {
        be_bytes(n / 256, (len - 1) as nat).push((n % 256) as u8)
    }
}

/// Encoding the value of a byte string in as many octets gives the string.
pub proof fn lemma_be_bytes(s: Seq<u8>)
    ensures
        be_bytes(bytes::be_nat(s), s.len()) == s,
    decreases s.len(),
{
    if s.len() > 0 {
        let t = s.drop_last();
        lemma_be_bytes(t);
        let n = bytes::be_nat(s);
        assert(n == 256 * bytes::be_nat(t) + s.last());
        assert(n / 256 == bytes::be_nat(t) && n % 256 == s.last());
        assert(be_bytes(n, s.len()) =~= t.push(s.last()));
        assert(t.push(s.last()) =~= s);
    } else {
        assert(be_bytes(0, 0) =~= s);
    }
}

/// A string of zero octets has the value zero.
pub proof fn lemma_be_nat_zeros(n: nat)
    ensures
        bytes::be_nat(bytes::zeros(n)) == 0,
    decreases n,
{
    if n > 0 {
        lemma_be_nat_zeros((n - 1) as nat);
        assert(bytes::zeros(n).drop_last() =~= bytes::zeros((n - 1) as nat));
    }
}

/// The two addresses, the greater first.
pub open spec fn sorted_macs(a: Seq<u8>, b: Seq<u8>) -> Seq<u8> {
    if bytes::be_nat(a) > bytes::be_nat(b) {
        a + b
    } else {
        b + a
    }
}

/// The order of the arguments does not matter to the sorted addresses.
pub proof fn lemma_sorted_macs_symmetric(a: Seq<u8>, b: Seq<u8>)
    requires
        a.len() == b.len(),
    ensures
        sorted_macs(a, b) == sorted_macs(b, a),
{
    if bytes::be_nat(a) == bytes::be_nat(b) {
        bytes::lemma_be_nat_injective(a, b);
    }
}

// ---- PWE derivation: H2E for group 19 (RFC 9380 SSWU) ----

/// The point that one label of the password token derivation gives.
pub open spec fn label_point(pwd_seed: Seq<u8>, label: Seq<u8>) -> Seq<u8> {
    curve::sswu_point(kdf::hkdf_expand_output(pwd_seed, label, 48))
}

/// What the password token is derived from: the password, followed by the
/// password identifier where there is one.
pub open spec fn secret_of(password: Seq<u8>, id: Option<Seq<u8>>) -> Seq<u8> {
    match id {
        Some(id) => password + id,
        None => password,
    }
}

/// The password token PT.
pub open spec fn password_token(ssid: Seq<u8>, password: Seq<u8>) -> Seq<u8> {
    let seed = primitives::hmac_sha256(ssid, password);
    curve::point_add(
        label_point(seed, "SAE Hash to Element u1 P1".spec_bytes()),
        label_point(seed, "SAE Hash to Element u2 P2".spec_bytes()),
    )
}

/// The scalar that turns PT into the PWE of two stations:
/// `H(0^n, MAX(mac)||MIN(mac)) mod (q-1) + 1`.
pub open spec fn pwe_scalar(mac_sta: Seq<u8>, mac_ap: Seq<u8>) -> nat {
    (bytes::be_nat(primitives::hmac_sha256(bytes::zeros(32), sorted_macs(mac_sta, mac_ap))) % (
    curve::order() - 1) as nat + 1) as nat
}

/// The password element of two stations by hash-to-element.
pub open spec fn pwe_h2e(
    password: Seq<u8>,
    ssid: Seq<u8>,
    mac_sta: Seq<u8>,
    mac_ap: Seq<u8>,
) -> Seq<u8> {
    curve::point_mul(password_token(ssid, password), pwe_scalar(mac_sta, mac_ap))
}

/// Both stations derive one password element: it does not depend on which
/// address is whose.
pub proof fn law_pwe_h2e_symmetric(
    password: Seq<u8>,
    ssid: Seq<u8>,
    mac_a: Seq<u8>,
    mac_b: Seq<u8>,
)
    requires
        mac_a.len() == 6,
        mac_b.len() == 6,
    ensures
        pwe_h2e(password, ssid, mac_a, mac_b) == pwe_h2e(password, ssid, mac_b, mac_a),
{
    lemma_sorted_macs_symmetric(mac_a, mac_b);
}

/// The two addresses, the greater first.
fn join_sorted_macs(a: &[u8; 6], b: &[u8; 6]) -> (r: Vec<u8>)
    ensures
        r@ == sorted_macs(a@, b@),
{
    let mut r: Vec<u8> = Vec::new();
    if handshake4::u64_from_mac(a) > handshake4::u64_from_mac(b) {
        bytes::append(&mut r, a);
        bytes::append(&mut r, b);
    } else {
        bytes::append(&mut r, b);
        bytes::append(&mut r, a);
    }
    assert(r@ =~= sorted_macs(a@, b@));
    r
}

/// The point that one label of the password token derivation gives.
fn sswu_from_label(pwd_seed: &[u8; 32], label: &str) -> (r: curve::CurvePoint)
    ensures
        r.valid(),
        r@ == label_point(pwd_seed@, label.spec_bytes()),
{
    let mut okm: [u8; 48] = [0u8; 48];
    let mut buf: Vec<u8> = Vec::new();
    bytes::append(&mut buf, &okm);
    kdf::hkdf_expand(pwd_seed, label.as_bytes(), buf.as_mut_slice());
    okm = bytes::array48(buf.as_slice(), 0);
    assert(okm@ =~= buf@);
    curve::map_to_curve(&okm)
}

/// Derive the password token PT (group 19).
fn derive_pt_ecc(ssid: &[u8], password: &[u8]) -> (r: Result<curve::CurvePoint, WifiError>)
    ensures
        match r {
            Ok(pt) => pt.valid() && !pt.spec_is_identity() && pt@ == password_token(
                ssid@,
                password@,
            ),
            Err(e) => e.is(ErrorKind::SaeFailed, "PT is identity"@) && password_token(
                ssid@,
                password@,
            ) == seq![0u8],
        },
{
    let pwd_seed = kdf::hkdf_extract_sha256(ssid, password);
    let p1 = sswu_from_label(&pwd_seed, "SAE Hash to Element u1 P1");
    let p2 = sswu_from_label(&pwd_seed, "SAE Hash to Element u2 P2");
    let pt = curve::add_points(&p1, &p2);
    if pt.is_identity() {
        return Err(WifiError::new(ErrorKind::SaeFailed, "PT is identity"));
    }
    Ok(pt)
}

/// PWE = val * PT, where val = H(0^n, MAX(mac)||MIN(mac)) mod (q-1) + 1.
fn derive_pwe_from_pt(pt: &curve::CurvePoint, mac_sta: &[u8; 6], mac_ap: &[u8; 6]) -> (r: Result<
    curve::CurvePoint,
    WifiError,
>)
    requires
        pt.valid(),
    ensures
        match r {
            Ok(pwe) => pwe.valid() && !pwe.spec_is_identity() && pwe@ == curve::point_mul(
                pt@,
                pwe_scalar(mac_sta@, mac_ap@),
            ),
            Err(e) => e.is(ErrorKind::SaeFailed, "PWE is identity"@) && curve::point_mul(
                pt@,
                pwe_scalar(mac_sta@, mac_ap@),
            ) == seq![0u8],
        },
{
    let macs = join_sorted_macs(mac_sta, mac_ap);
    let zero: [u8; 32] = [0u8; 32];
    assert(zero@ =~= bytes::zeros(32));
    let val_hash = kdf::hkdf_extract_sha256(&zero, macs.as_slice());
    let one = one_bytes();
    proof {
        curve::lemma_order();
    }
    let order_m1 = curve::sub_u256(&curve::group_order(), &one);
    let reduced = curve::rem_u256(&val_hash, &order_m1);
    proof {
        vstd::arithmetic::div_mod::lemma_mod_bound(
            bytes::be_nat(val_hash@) as int,
            bytes::be_nat(order_m1@) as int,
        );
    }
    let val = curve::add_u256(&reduced, &one);
    let pwe = curve::mul_point(pt, &val);
    if pwe.is_identity() {
        return Err(WifiError::new(ErrorKind::SaeFailed, "PWE is identity"));
    }
    Ok(pwe)
}

/// The number one.
fn one_bytes() -> (r: [u8; 32])
    ensures
        bytes::be_nat(r@) == 1,
{
    let mut r: [u8; 32] = [0u8; 32];
    r[31] = 1;
    proof {
        lemma_be_nat_zeros(31);
        assert(r@.drop_last() =~= bytes::zeros(31));
    }
    r
}

/// The number three.
fn three_bytes() -> (r: [u8; 32])
    ensures
        bytes::be_nat(r@) == 3,
{
    let mut r: [u8; 32] = [0u8; 32];
    r[31] = 3;
    proof {
        lemma_be_nat_zeros(31);
        assert(r@.drop_last() =~= bytes::zeros(31));
    }
    r
}

/// Whether `r` is the password element by hash-to-element, or why there is
/// none.
pub open spec fn pwe_h2e_outcome(
    secret: Seq<u8>,
    ssid: Seq<u8>,
    mac_sta: Seq<u8>,
    mac_ap: Seq<u8>,
    r: Result<curve::CurvePoint, WifiError>,
) -> bool {
    let pt = password_token(ssid, secret);
    let pwe = pwe_h2e(secret, ssid, mac_sta, mac_ap);
    match r {
        Ok(p) => {
            &&& pt != seq![0u8]
            &&& pwe != seq![0u8]
            &&& p.valid()
            &&& p@ == pwe
        },
        Err(e) => {
            ||| pt == seq![0u8] && e.is(ErrorKind::SaeFailed, "PT is identity"@)
            ||| pt != seq![0u8] && pwe == seq![0u8] && e.is(
                ErrorKind::SaeFailed,
                "PWE is identity"@,
            )
        },
    }
}

/// The password element by hash-to-element.
pub fn compute_pwe_h2e(
    password: &str,
    ssid: &str,
    mac_sta: &[u8; 6],
    mac_ap: &[u8; 6],
) -> (r: Result<curve::CurvePoint, WifiError>)
    ensures
        pwe_h2e_outcome(password.spec_bytes(), ssid.spec_bytes(), mac_sta@, mac_ap@, r),
{
    compute_pwe_h2e_with_id(password, ssid, mac_sta, mac_ap, None)
}

/// The password element by hash-to-element, of a password with an optional
/// identifier.
pub fn compute_pwe_h2e_with_id(
    password: &str,
    ssid: &str,
    mac_sta: &[u8; 6],
    mac_ap: &[u8; 6],
    password_id: Option<&str>,
) -> (r: Result<curve::CurvePoint, WifiError>)
    ensures
        pwe_h2e_outcome(
            secret_of(password.spec_bytes(), opt_str(password_id)),
            ssid.spec_bytes(),
            mac_sta@,
            mac_ap@,
            r,
        ),
{
    let mut secret = bytes::to_vec(password.as_bytes());
    if let Some(id) = password_id {
        bytes::append(&mut secret, id.as_bytes());
    }
    assert(secret@ =~= secret_of(password.spec_bytes(), opt_str(password_id)));
    match derive_pt_ecc(ssid.as_bytes(), secret.as_slice()) {
        Ok(pt) => derive_pwe_from_pt(&pt, mac_sta, mac_ap),
        Err(e) => Err(e),
    }
}

/// The octets of an optional text.
pub open spec fn opt_str(s: Option<&str>) -> Option<Seq<u8>> {
    match s {
        Some(t) => Some(t.spec_bytes()),
        None => None,
    }
}

// ---- PWE derivation: hunting-and-pecking for group 19 (RFC 7664) ----

/// The password seed of one hunting-and-pecking round.
pub open spec fn hnp_seed(password: Seq<u8>, macs: Seq<u8>, counter: nat) -> Seq<u8> {
    primitives::hmac_sha256(macs, password + seq![counter as u8])
}

/// The candidate `x` of one hunting-and-pecking round.
pub open spec fn hnp_x(password: Seq<u8>, macs: Seq<u8>, counter: nat) -> Seq<u8> {
    kdf::kdf_output(
        hnp_seed(password, macs, counter),
        "SAE Hunting and Pecking".spec_bytes(),
        curve::prime_bytes(),
        32,
    )
}

/// Whether the candidate of a round is the `x` coordinate of a curve point.
pub open spec fn hnp_hit(password: Seq<u8>, macs: Seq<u8>, counter: nat) -> bool {
    let x = bytes::be_nat(hnp_x(password, macs, counter));
    x < curve::prime() && curve::is_square(curve::curve_rhs(x))
}

/// Whether `p` is the point that a round gives: its candidate as `x`, and of
/// the two `y` the one whose lowest bit is that of the seed.
pub open spec fn is_hnp_point(
    p: Seq<u8>,
    password: Seq<u8>,
    macs: Seq<u8>,
    counter: nat,
) -> bool {
    let y = bytes::be_nat(p.subrange(33, 65));
    &&& p.len() == 65
    &&& curve::is_point(p)
    &&& p.subrange(1, 33) == hnp_x(password, macs, counter)
    &&& y % 2 == hnp_seed(password, macs, counter)[31] % 2 || y == 0
}

/// Whether `p` is the password element by hunting-and-pecking: the point of
/// the first round that gives one.
pub open spec fn is_pwe_hnp(p: Seq<u8>, password: Seq<u8>, macs: Seq<u8>) -> bool {
    exists|c: nat|
        {
            &&& 1 <= c <= HNP_MAX_ITER
            &&& hnp_hit(password, macs, c)
            &&& forall|d: nat| 1 <= d < c ==> !hnp_hit(password, macs, d)
            &&& #[trigger] is_hnp_point(p, password, macs, c)
        }
}

/// One round of hunting-and-pecking: the point, where the candidate gives
/// one.
fn hnp_round(password: &[u8], macs: &[u8], counter: u16) -> (r: Option<curve::CurvePoint>)
    requires
        1 <= counter <= HNP_MAX_ITER,
    ensures
        match r {
            Some(p) => hnp_hit(password@, macs@, counter as nat) && is_hnp_point(
                p@,
                password@,
                macs@,
                counter as nat,
            ),
            None => !hnp_hit(password@, macs@, counter as nat),
        },
{
    let mut ikm = bytes::to_vec(password);
    ikm.push(counter as u8);
    assert(ikm@ =~= password@ + seq![counter as u8]);
    let pwd_seed = kdf::hkdf_extract_sha256(macs, ikm.as_slice());
    let prime: [u8; 32] = curve::P256_PRIME;
    assert(prime@ =~= curve::prime_bytes());
    let pwd_value = kdf::kdf(&pwd_seed, "SAE Hunting and Pecking", &prime, 32);
    let x = bytes::array32(pwd_value.as_slice(), 0);
    assert(x@ =~= pwd_value@);
    if !curve::is_field_element(&x) {
        return None;
    }
    let b: [u8; 32] = curve::P256_B;
    let three = three_bytes();
    proof {
        assert(b@ =~= curve::b_bytes());
        curve::lemma_prime();
        reveal(curve::curve_b);
    }
    // y^2 = x^3 - 3x + b mod p; a quadratic residue means the candidate x is on
    // the curve.
    let x_cubed = curve::cube_field(&x);
    let x_tripled = curve::mul_field(&x, &three);
    proof {
        let xn = bytes::be_nat(x@);
        vstd::arithmetic::div_mod::lemma_mod_bound((xn * xn * xn) as int, curve::prime() as int);
        vstd::arithmetic::div_mod::lemma_mod_bound((xn * 3) as int, curve::prime() as int);
    }
    let diff = curve::sub_field(&x_cubed, &x_tripled);
    proof {
        vstd::arithmetic::div_mod::lemma_mod_bound(
            bytes::be_nat(x_cubed@) + curve::prime() - bytes::be_nat(x_tripled@),
            curve::prime() as int,
        );
    }
    let y_sqr = curve::add_field(&diff, &b);
    proof {
        vstd::arithmetic::div_mod::lemma_mod_bound(
            (bytes::be_nat(diff@) + bytes::be_nat(b@)) as int,
            curve::prime() as int,
        );
        assert(bytes::be_nat(y_sqr@) == curve::curve_rhs(bytes::be_nat(x@)));
    }
    match curve::sqrt_field(&y_sqr) {
        None => None,
        Some(y0) => {
            proof {
                let yn = bytes::be_nat(y0@);
                assert((yn * yn) % curve::prime() == curve::curve_rhs(bytes::be_nat(x@)));
                curve::lemma_negated_root(yn);
                lemma_parity(y0@);
            }
            // The point must be solved unambiguously: pick the y whose lowest
            // bit matches that of the seed.
            let y = if y0[31] % 2 == pwd_seed[31] % 2 {
                y0
            } else {
                curve::neg_field(&y0)
            };
            let mut sec1: Vec<u8> = Vec::new();
            sec1.push(4);
            bytes::append(&mut sec1, &x);
            bytes::append(&mut sec1, &y);
            assert(sec1@.subrange(1, 33) =~= x@);
            assert(sec1@.subrange(33, 65) =~= y@);
            proof {
                lemma_parity(y@);
            }
            Some(curve::CurvePoint { sec1 })
        },
    }
}

/// The parity of a number is that of its last octet.
proof fn lemma_parity(s: Seq<u8>)
    requires
        s.len() > 0,
    ensures
        bytes::be_nat(s) % 2 == s.last() % 2,
{
    assert(bytes::be_nat(s) == 256 * bytes::be_nat(s.drop_last()) + s.last());
}

/// Hunting-and-pecking PWE derivation for group 19 (RFC 7664 §3.2.1,
/// 802.11-2020 §12.4.5.1), without constant-time blinding: the first valid
/// candidate is the password element.
///
/// For each counter (starting at 1):
///   pwd-seed = HMAC-SHA256(MAX(mac)||MIN(mac), password || counter)
///   pwd-value = KDF(pwd-seed, "SAE Hunting and Pecking", p, 256)
///   x = pwd-value, if x < p and y_sqr = x^3 - 3x + b is a quadratic
///       residue: PWE = (x, y) with y = sqrt(y_sqr) chosen by the LSB of
///       the pwd-seed (802.11-2020 §12.4.5.1.3).
pub fn compute_pwe_hnp(
    password: &str,
    _ssid: &str,
    mac_sta: &[u8; 6],
    mac_ap: &[u8; 6],
) -> (r: Result<curve::CurvePoint, WifiError>)
    ensures
        ({
            let macs = sorted_macs(mac_sta@, mac_ap@);
            match r {
                Ok(p) => p.valid() && !p.spec_is_identity() && is_pwe_hnp(
                    p@,
                    password.spec_bytes(),
                    macs,
                ),
                Err(e) => {
                    &&& e.is(
                        ErrorKind::SaeFailed,
                        "could not derive PWE within 200 iterations"@,
                    )
                    &&& forall|c: nat|
                        1 <= c <= HNP_MAX_ITER ==> !hnp_hit(password.spec_bytes(), macs, c)
                },
            }
        }),
{
    let macs = join_sorted_macs(mac_sta, mac_ap);
    let password_bytes = password.as_bytes();
    let mut counter: u16 = 1;
    while counter <= HNP_MAX_ITER
        invariant
            1 <= counter <= HNP_MAX_ITER + 1,
            macs@ == sorted_macs(mac_sta@, mac_ap@),
            password_bytes@ == password.spec_bytes(),
            forall|d: nat| 1 <= d < counter ==> !hnp_hit(password.spec_bytes(), macs@, d),
        decreases HNP_MAX_ITER + 1 - counter,
    {
        match hnp_round(password_bytes, macs.as_slice(), counter) {
            Some(p) => {
                assert(is_hnp_point(p@, password.spec_bytes(), macs@, counter as nat));
                return Ok(p);
            },
            None => {},
        }
        counter = counter + 1;
    }
    Err(WifiError::new(ErrorKind::SaeFailed, "could not derive PWE within 200 iterations"))
}

/// Whether a password gives no password element.
pub open spec fn has_no_pwe(
    h2e: bool,
    password: Seq<u8>,
    ssid: Seq<u8>,
    mac_sta: Seq<u8>,
    mac_ap: Seq<u8>,
) -> bool {
    if h2e {
        password_token(ssid, password) == seq![0u8] || pwe_h2e(password, ssid, mac_sta, mac_ap)
            == seq![0u8]
    } else {
        forall|c: nat|
            1 <= c <= HNP_MAX_ITER ==> !hnp_hit(password, sorted_macs(mac_sta, mac_ap), c)
    }
}

/// Whether an error says why there is no exchange between two stations that
/// share a password under an optional identifier: the identifier is too long,
/// or there is no password element.
pub open spec fn no_exchange(
    e: WifiError,
    password: Seq<u8>,
    ssid: Seq<u8>,
    mac_sta: Seq<u8>,
    mac_ap: Seq<u8>,
    h2e: bool,
    id: Option<Seq<u8>>,
) -> bool {
    if h2e && id is Some && id->0.len() > PASSWORD_ID_MAX_LEN {
        e.is(ErrorKind::InvalidConfig, "SAE password identifier is longer than 254 octets"@)
    } else {
        &&& e.kind == ErrorKind::SaeFailed
        &&& has_no_pwe(
            h2e,
            if h2e {
                secret_of(password, id)
            } else {
                password
            },
            ssid,
            mac_sta,
            mac_ap,
        )
    }
}

// ---- Commit messages ----

/// The octets of a commit as auth_data.
pub open spec fn commit_auth_data(
    h2e: bool,
    group: u16,
    scalar: Seq<u8>,
    element: Seq<u8>,
    id: Option<Seq<u8>>,
    token: Option<Seq<u8>>,
) -> Seq<u8> {
    bytes::le16_bytes(1) + bytes::le16_bytes(
        if h2e {
            SAE_STATUS_H2E
        } else {
            0
        },
    ) + bytes::le16_bytes(group) + scalar + element + (match id {
        Some(id) => identifier_octets(id),
        None => Seq::empty(),
    }) + (match token {
        Some(t) => token_octets(h2e, t),
        None => Seq::empty(),
    })
}

/// A password identifier as it stands in a commit: in its element.
pub open spec fn identifier_octets(id: Seq<u8>) -> Seq<u8> {
    seq![ELEMENT_ID_EXTENSION, (1 + id.len()) as u8, EXT_PASSWORD_IDENTIFIER] + id
}

/// An anti-clogging token as it stands in a commit: in its container element
/// for H2E, raw for hunting-and-pecking.
pub open spec fn token_octets(h2e: bool, token: Seq<u8>) -> Seq<u8> {
    if h2e {
        seq![
            ELEMENT_ID_EXTENSION,
            (1 + token.len() % 256) as u8,
            EXT_ANTI_CLOGGING_TOKEN,
        ] + token
    } else {
        token
    }
}

/// The anti-clogging token in a status-76 response, or why there is none.
pub open spec fn token_of(h2e: bool, payload: Seq<u8>) -> Result<Seq<u8>, Seq<char>> {
    if payload.len() < 2 {
        Err("anti-clogging response too short"@)
    } else if !h2e {
        Ok(payload.subrange(2, payload.len() as int))
    } else if payload.len() < 5 || payload[2] != ELEMENT_ID_EXTENSION || payload[4]
        != EXT_ANTI_CLOGGING_TOKEN {
        Err("malformed anti-clogging token container"@)
    } else if payload[3] == 0 || payload[3] > payload.len() - 4 {
        Err("bad anti-clogging token container length"@)
    } else {
        Ok(payload.subrange(5, 4 + payload[3]))
    }
}

/// The view of an optional slice.
pub open spec fn opt_slice(s: Option<&[u8]>) -> Option<Seq<u8>> {
    match s {
        Some(b) => Some(b@),
        None => None,
    }
}

/// Serialize a SAE commit as auth_data: transaction(2 LE) || status(2 LE) ||
/// group(2 LE) || scalar || element [|| anti-clogging token].
pub fn build_commit_auth_data(
    h2e: bool,
    group: u16,
    scalar: &[u8],
    element: &[u8],
    token: Option<&[u8]>,
) -> (r: Vec<u8>)
    requires
        h2e ==> (token matches Some(t) ==> t@.len() % 256 != 255),
    ensures
        r@ == commit_auth_data(h2e, group, scalar@, element@, None, opt_slice(token)),
{
    build_commit_auth_data_with_id(h2e, group, scalar, element, None, token)
}

/// Serialize a SAE commit as auth_data: transaction(2 LE) || status(2 LE) ||
/// group(2 LE) || scalar || element [|| password identifier] [||
/// anti-clogging token].
pub fn build_commit_auth_data_with_id(
    h2e: bool,
    group: u16,
    scalar: &[u8],
    element: &[u8],
    password_id: Option<&[u8]>,
    token: Option<&[u8]>,
) -> (r: Vec<u8>)
    requires
        password_id matches Some(id) ==> id@.len() <= PASSWORD_ID_MAX_LEN,
        h2e ==> (token matches Some(t) ==> t@.len() % 256 != 255),
    ensures
        r@ == commit_auth_data(
            h2e,
            group,
            scalar@,
            element@,
            opt_slice(password_id),
            opt_slice(token),
        ),
{
    let mut auth_data: Vec<u8> = Vec::new();
    bytes::push_le16(&mut auth_data, 1);
    // status: SAE_HASH_TO_ELEMENT for H2E, 0 for hunting-and-pecking
    let status: u16 = if h2e {
        SAE_STATUS_H2E
    } else {
        0
    };
    bytes::push_le16(&mut auth_data, status);
    bytes::push_le16(&mut auth_data, group);
    bytes::append(&mut auth_data, scalar);
    bytes::append(&mut auth_data, element);
    if let Some(id) = password_id {
        // Password Identifier: extended element.
        auth_data.push(ELEMENT_ID_EXTENSION);
        auth_data.push((1 + id.len()) as u8);
        auth_data.push(EXT_PASSWORD_IDENTIFIER);
        bytes::append(&mut auth_data, id);
    }
    if let Some(token) = token {
        if h2e {
            // Anti-Clogging Token Container: extended element.
            auth_data.push(ELEMENT_ID_EXTENSION);
            auth_data.push((1 + token.len() % 256) as u8);
            auth_data.push(EXT_ANTI_CLOGGING_TOKEN);
        }
        bytes::append(&mut auth_data, token);
    }
    assert(auth_data@ =~= commit_auth_data(
        h2e,
        group,
        scalar@,
        element@,
        opt_slice(password_id),
        opt_slice(token),
    ));
    auth_data
}

/// Parse the anti-clogging token from a status-76 commit response. Payload
/// layout: group(2 LE) || token, where the token is wrapped in the
/// Anti-Clogging Token Container element for H2E and raw for HnP
/// (802.11-2020 §12.4.4.2.1).
pub fn parse_anti_clogging_token(h2e: bool, payload: &[u8]) -> (r: Result<Vec<u8>, WifiError>)
    ensures
        match token_of(h2e, payload@) {
            Ok(token) => r matches Ok(t) && t@ == token,
            Err(msg) => r matches Err(e) && e.is(ErrorKind::SaeFailed, msg),
        },
{
    if payload.len() < 2 {
        return Err(WifiError::new(ErrorKind::SaeFailed, "anti-clogging response too short"));
    }
    if !h2e {
        return Ok(bytes::sub_vec(payload, 2, payload.len()));
    }
    // FF || elen || EXT_ANTI_CLOGGING_TOKEN || token...
    if payload.len() < 5 || payload[2] != ELEMENT_ID_EXTENSION || payload[4]
        != EXT_ANTI_CLOGGING_TOKEN {
        return Err(
            WifiError::new(ErrorKind::SaeFailed, "malformed anti-clogging token container"),
        );
    }
    let elen: usize = payload[3] as usize;
    if elen == 0 || elen > payload.len() - 4 {
        return Err(
            WifiError::new(ErrorKind::SaeFailed, "bad anti-clogging token container length"),
        );
    }
    Ok(bytes::sub_vec(payload, 5, 4 + elen))
}

/// A token is read back from the form in which it is sent: for either kind
/// of commit, and for H2E where it fits in its container.
pub proof fn law_token_roundtrip(h2e: bool, group: u16, token: Seq<u8>)
    requires
        h2e ==> token.len() < 255,
    ensures
        token_of(h2e, bytes::le16_bytes(group) + token_octets(h2e, token)) == Ok::<
            Seq<u8>,
            Seq<char>,
        >(token),
{
    let payload = bytes::le16_bytes(group) + token_octets(h2e, token);
    if h2e {
        assert(payload[2] == ELEMENT_ID_EXTENSION && payload[3] == 1 + token.len() && payload[4]
            == EXT_ANTI_CLOGGING_TOKEN);
        assert(payload.subrange(5, 5 + token.len() as int) =~= token);
    } else {
        assert(payload.subrange(2, payload.len() as int) =~= token);
    }
}

// ---- The exchange ----

/// SAE handshake, Hash-to-Element or hunting-and-pecking, group 19 (NIST
/// P-256 elliptic curve).
#[derive(Clone, Debug)]
pub struct SaeAuth {
    pub pwe: curve::CurvePoint,
    pub rand: [u8; 32],
    pub peer_scalar: Option<[u8; 32]>,
    pub peer_elem: Option<curve::CurvePoint>,
    pub kck: Option<[u8; 32]>,
    pub pmk: Option<[u8; 32]>,
    pub pmkid: Option<[u8; 16]>,
    pub confirmed: bool,
    /// PWE was derived with hash-to-element (true) or hunting-and-pecking
    /// (false); decides the commit's status code and the anti-clogging token
    /// framing.
    pub h2e: bool,
    /// When the commit is rejected (an H2E commit e.g. by an HnP-only AP), fall
    /// back to the other PWE derivation method instead of failing the
    /// authentication.
    pub hnp_fallback: bool,
    /// Our scalar; zero before the commit.
    pub own_scalar: [u8; 32],
    /// Our element as x || y; zero before the commit.
    pub own_elem: [u8; 64],
    /// The password identifier that every commit carries, where there is one.
    /// Password identifiers are H2E-only.
    pub password_id: Option<Vec<u8>>,
}

/// Why a peer scalar is refused, where it is: only values in [1, r-1] are
/// scalars (802.11-2020 §12.4.5.3).
pub open spec fn peer_scalar_error(b: Seq<u8>) -> Option<Seq<char>> {
    if b.len() < 32 {
        Some("peer scalar too short: "@ + text::dec(b.len()) + " bytes"@)
    } else if bytes::be_nat(b.subrange(0, 32)) >= curve::order() {
        Some("peer scalar out of range"@)
    } else if bytes::be_nat(b.subrange(0, 32)) == 0 {
        Some("peer scalar is zero"@)
    } else {
        None
    }
}

/// The sum of two scalars in the group, as 32 octets.
pub open spec fn scalar_sum(a: Seq<u8>, b: Seq<u8>) -> Seq<u8> {
    be_bytes((bytes::be_nat(a) + bytes::be_nat(b)) % curve::order(), 32)
}

/// KCK || PMK of an exchange, from the shared point and the scalar sum.
pub open spec fn session_keys(shared: Seq<u8>, val: Seq<u8>) -> Seq<u8> {
    kdf::kdf_output(
        primitives::hmac_sha256(bytes::zeros(32), shared.subrange(1, 33)),
        "SAE KCK and PMK".spec_bytes(),
        val,
        64,
    )
}

/// Decode a peer scalar, rejecting values outside [1, r-1] (802.11-2020
/// §12.4.5.3).
fn scalar_from_bytes(b: &[u8]) -> (r: Result<[u8; 32], WifiError>)
    ensures
        match peer_scalar_error(b@) {
            None => r matches Ok(s) && s@ == b@.subrange(0, 32),
            Some(msg) => r matches Err(e) && e.is(ErrorKind::SaeFailed, msg),
        },
{
    if b.len() < 32 {
        let mut msg = text::text("peer scalar too short: ");
        text::push_dec(&mut msg, b.len() as u64);
        msg.append(" bytes");
        return Err(WifiError::new(ErrorKind::SaeFailed, msg.as_str()));
    }
    let s = bytes::array32(b, 0);
    if !curve::is_scalar(&s) {
        return Err(WifiError::new(ErrorKind::SaeFailed, "peer scalar out of range"));
    }
    let zero: [u8; 32] = [0u8; 32];
    proof {
        assert(zero@ =~= bytes::zeros(32));
        lemma_be_nat_zeros(32);
        if bytes::be_nat(s@) == 0 {
            bytes::lemma_be_nat_injective(s@, zero@);
        }
    }
    if bytes::same(&s, &zero) {
        return Err(WifiError::new(ErrorKind::SaeFailed, "peer scalar is zero"));
    }
    Ok(s)
}

impl SaeAuth {
    /// What holds of every exchange: the password element is a point, the
    /// scalars are below the group order, and keys and peer values are there
    /// together.
    pub open spec fn wf(self) -> bool {
        &&& self.pwe.valid()
        &&& !self.pwe.spec_is_identity()
        &&& bytes::be_nat(self.rand@) < curve::order()
        &&& bytes::be_nat(self.own_scalar@) < curve::order()
        &&& self.peer_scalar is Some <==> self.kck is Some
        &&& self.peer_elem is Some <==> self.kck is Some
        &&& self.pmk is Some <==> self.kck is Some
        &&& self.pmkid is Some <==> self.kck is Some
        &&& self.peer_elem matches Some(p) ==> p.valid() && !p.spec_is_identity()
        &&& self.confirmed ==> self.kck is Some
        &&& self.id() matches Some(id) ==> self.h2e && id.len() <= PASSWORD_ID_MAX_LEN
    }

    /// The password identifier, where there is one.
    pub open spec fn id(self) -> Option<Seq<u8>> {
        handshake4::opt_bytes(self.password_id)
    }

    /// Whether no commit was made or received yet.
    pub open spec fn is_new(self) -> bool {
        &&& self.rand@ == bytes::zeros(32)
        &&& self.own_scalar@ == bytes::zeros(32)
        &&& self.own_elem@ == bytes::zeros(64)
        &&& self.kck is None
        &&& !self.confirmed
    }

    /// The auth_data of our commit.
    pub open spec fn commit_data(self, token: Option<Seq<u8>>) -> Seq<u8> {
        commit_auth_data(
            self.h2e,
            SAE_GROUP19_ID,
            self.own_scalar@,
            self.own_elem@,
            self.id(),
            token,
        )
    }

    /// The auth_data of our commit.
    fn commit_octets(&self, token: Option<&[u8]>) -> (r: Vec<u8>)
        requires
            self.wf(),
            self.h2e ==> (token matches Some(t) ==> t@.len() % 256 != 255),
        ensures
            r@ == self.commit_data(opt_slice(token)),
    {
        let password_id = match &self.password_id {
            Some(id) => Some(id.as_slice()),
            None => None,
        };
        build_commit_auth_data_with_id(
            self.h2e,
            SAE_GROUP19_ID,
            &self.own_scalar,
            &self.own_elem,
            password_id,
            token,
        )
    }

    /// Whether this is a new exchange between two stations that share a
    /// password, under a password identifier where there is one and
    /// hash-to-element is used.
    pub open spec fn is_fresh(
        self,
        password: Seq<u8>,
        ssid: Seq<u8>,
        mac_sta: Seq<u8>,
        mac_ap: Seq<u8>,
        h2e: bool,
        hnp_fallback: bool,
        id: Option<Seq<u8>>,
    ) -> bool {
        &&& self.is_new()
        &&& self.h2e == h2e
        &&& self.hnp_fallback == hnp_fallback
        &&& if h2e {
            &&& self.id() == id
            &&& self.pwe@ == pwe_h2e(secret_of(password, id), ssid, mac_sta, mac_ap)
        } else {
            &&& self.id() is None
            &&& is_pwe_hnp(self.pwe@, password, sorted_macs(mac_sta, mac_ap))
        }
    }

    /// An exchange over a password element.
    pub fn with_pwe(
        pwe: curve::CurvePoint,
        h2e: bool,
        hnp_fallback: bool,
        password_id: Option<Vec<u8>>,
    ) -> (r: Self)
        requires
            pwe.valid(),
            !pwe.spec_is_identity(),
            password_id matches Some(id) ==> h2e && id@.len() <= PASSWORD_ID_MAX_LEN,
        ensures
            r.wf(),
            r.is_new(),
            r.pwe == pwe,
            r.h2e == h2e,
            r.hnp_fallback == hnp_fallback,
            r.password_id == password_id,
    {
        let zero32: [u8; 32] = [0u8; 32];
        let zero64: [u8; 64] = [0u8; 64];
        proof {
            assert(zero32@ =~= bytes::zeros(32));
            assert(zero64@ =~= bytes::zeros(64));
            lemma_be_nat_zeros(32);
            curve::lemma_order();
        }
        SaeAuth {
            pwe,
            rand: zero32,
            peer_scalar: None,
            peer_elem: None,
            kck: None,
            pmk: None,
            pmkid: None,
            confirmed: false,
            h2e,
            hnp_fallback,
            own_scalar: zero32,
            own_elem: zero64,
            password_id,
        }
    }

    /// An exchange between two stations that share a password. The error is
    /// that no password element could be derived.
    pub fn new(
        password: &str,
        ssid: &str,
        mac_sta: [u8; 6],
        mac_ap: [u8; 6],
        h2e: bool,
        hnp_fallback: bool,
    ) -> (r: Result<Self, WifiError>)
        ensures
            match r {
                Ok(s) => s.wf() && s.is_fresh(
                    password.spec_bytes(),
                    ssid.spec_bytes(),
                    mac_sta@,
                    mac_ap@,
                    h2e,
                    hnp_fallback,
                    None,
                ),
                Err(e) => no_exchange(
                    e,
                    password.spec_bytes(),
                    ssid.spec_bytes(),
                    mac_sta@,
                    mac_ap@,
                    h2e,
                    None,
                ),
            },
    {
        SaeAuth::new_with_password_id(password, ssid, mac_sta, mac_ap, h2e, hnp_fallback, None)
    }

    /// An exchange between two stations that share a password under an
    /// optional password identifier, with which the H2E PWE is derived and
    /// which every commit carries. The error is that no password element could
    /// be derived, or that the identifier does not fit in its element.
    pub fn new_with_password_id(
        password: &str,
        ssid: &str,
        mac_sta: [u8; 6],
        mac_ap: [u8; 6],
        h2e: bool,
        hnp_fallback: bool,
        password_id: Option<&str>,
    ) -> (r: Result<Self, WifiError>)
        ensures
            match r {
                Ok(s) => s.wf() && s.is_fresh(
                    password.spec_bytes(),
                    ssid.spec_bytes(),
                    mac_sta@,
                    mac_ap@,
                    h2e,
                    hnp_fallback,
                    opt_str(password_id),
                ),
                Err(e) => no_exchange(
                    e,
                    password.spec_bytes(),
                    ssid.spec_bytes(),
                    mac_sta@,
                    mac_ap@,
                    h2e,
                    opt_str(password_id),
                ),
            },
    {
        if !h2e {
            return match compute_pwe_hnp(password, ssid, &mac_sta, &mac_ap) {
                Ok(pwe) => Ok(SaeAuth::with_pwe(pwe, false, hnp_fallback, None)),
                Err(e) => Err(e),
            };
        }
        let id = match password_id {
            Some(id) => {
                if id.as_bytes().len() > PASSWORD_ID_MAX_LEN {
                    return Err(
                        WifiError::new(
                            ErrorKind::InvalidConfig,
                            "SAE password identifier is longer than 254 octets",
                        ),
                    );
                }
                Some(bytes::to_vec(id.as_bytes()))
            },
            None => None,
        };
        match compute_pwe_h2e_with_id(password, ssid, &mac_sta, &mac_ap, password_id) {
            Ok(pwe) => Ok(SaeAuth::with_pwe(pwe, true, hnp_fallback, id)),
            Err(e) => Err(e),
        }
    }

    /// SAE group identifier (19 = P-256).
    pub fn group_id(&self) -> (r: u16)
        ensures
            r == SAE_GROUP19_ID,
            r == 19,
    {
        SAE_GROUP19_ID
    }

    /// Whether the PWE was derived with hash-to-element.
    pub fn is_h2e(&self) -> (r: bool)
        ensures
            r == self.h2e,
    {
        self.h2e
    }

    /// Whether a rejected commit may fall back to the other PWE derivation
    /// method: from H2E to hunting-and-pecking, or the other way.
    pub fn hnp_fallback_allowed(&self) -> (r: bool)
        ensures
            r == self.hnp_fallback,
    {
        self.hnp_fallback
    }

    /// Whether this is `before` after a commit made with the secrets `rand`
    /// and `mask`: the scalar is their sum in the group, and the element the
    /// PWE times the negated mask.
    pub open spec fn committed(self, before: Self, rand: Seq<u8>, mask: Seq<u8>) -> bool {
        &&& self == (SaeAuth {
            rand: self.rand,
            own_scalar: self.own_scalar,
            own_elem: self.own_elem,
            ..before
        })
        &&& self.rand@ == rand
        &&& bytes::be_nat(self.own_scalar@) == (bytes::be_nat(rand) + bytes::be_nat(mask))
            % curve::order()
        &&& exists|elem: curve::CurvePoint|
            elem.valid() && elem@ == curve::point_mul(
                before.pwe@,
                ((curve::order() - bytes::be_nat(mask)) % curve::order() as int) as nat,
            ) && self.own_elem@ == elem.coordinates()
    }

    /// Whether this is `before` after a commit made with some two secrets.
    pub open spec fn commits(self, before: Self) -> bool {
        exists|rand: Seq<u8>, mask: Seq<u8>|
            0 < bytes::be_nat(rand) < curve::order() && 0 < bytes::be_nat(mask) < curve::order()
                && #[trigger] self.committed(before, rand, mask)
    }

    /// Generate our commit (scalar + element) from two secrets.
    pub fn build_commit_with(&mut self, rand: &[u8; 32], mask: &[u8; 32]) -> (r: (
        Vec<u8>,
        Vec<u8>,
    ))
        requires
            old(self).wf(),
            0 < bytes::be_nat(rand@) < curve::order(),
            0 < bytes::be_nat(mask@) < curve::order(),
        ensures
            final(self).wf(),
            final(self).committed(*old(self), rand@, mask@),
            r.0@ == final(self).own_scalar@,
            r.1@ == final(self).own_elem@,
    {
        // scalar = (rand + mask) mod r
        let scalar = curve::add_scalars(rand, mask);
        proof {
            curve::lemma_order();
            vstd::arithmetic::div_mod::lemma_mod_bound(
                (bytes::be_nat(rand@) + bytes::be_nat(mask@)) as int,
                curve::order() as int,
            );
        }
        // COMMIT-ELEMENT = inverse(scalar-op(mask, PWE)) = -(mask * PWE)
        let elem = curve::neg_point(&curve::mul_point(&self.pwe, mask));
        let elem_bytes = elem.to_x_y();
        self.rand = *rand;
        self.own_scalar = scalar;
        self.own_elem = elem_bytes;
        assert(elem@ == curve::point_mul(
            old(self).pwe@,
            ((curve::order() - bytes::be_nat(mask@)) % curve::order() as int) as nat,
        ));
        (bytes::to_vec(&scalar), bytes::to_vec(&elem_bytes))
    }

    /// Generate our commit (scalar + element) with fresh random secrets. The
    /// error is that the system gave no randomness; then nothing changes.
    pub fn build_commit(&mut self) -> (r: Result<(Vec<u8>, Vec<u8>), WifiError>)
        requires
            old(self).wf(),
        ensures
            final(self).wf(),
            match r {
                Ok((scalar, elem)) => {
                    &&& final(self).commits(*old(self))
                    &&& scalar@ == final(self).own_scalar@
                    &&& elem@ == final(self).own_elem@
                },
                Err(e) => {
                    &&& *final(self) == *old(self)
                    &&& is_rng_failure(e)
                },
            },
    {
        let rand = match curve::random_scalar() {
            Ok(k) => k,
            Err(t) => {
                return Err(rng_failure(&t));
            },
        };
        let mask = match curve::random_scalar() {
            Ok(k) => k,
            Err(t) => {
                return Err(rng_failure(&t));
            },
        };
        Ok(self.build_commit_with(&rand, &mask))
    }

    /// The point that both sides of an exchange arrive at: our secret times
    /// the sum of the PWE times the peer's scalar and the peer's element.
    pub open spec fn shared_point(self, peer_scalar: Seq<u8>, peer_elem: Seq<u8>) -> Seq<u8> {
        curve::point_mul(
            curve::point_add(
                curve::point_mul(self.pwe@, bytes::be_nat(peer_scalar)),
                curve::decoded_element(peer_elem),
            ),
            bytes::be_nat(self.rand@),
        )
    }

    /// Whether the shared point is the PWE times the secret times the sum of
    /// the peer's scalar and the factor by which the peer's element is a
    /// multiple of the PWE, for each such factor.
    pub open spec fn shares_by_log(self, peer_scalar: Seq<u8>, peer_elem: Seq<u8>) -> bool {
        forall|log: nat|
            log < curve::order() && curve::decoded_element(peer_elem)
                == #[trigger] curve::point_mul(self.pwe@, log) ==> self.shared_point(
                peer_scalar,
                peer_elem,
            ) == shared_from_log(
                self.pwe@,
                bytes::be_nat(self.rand@),
                bytes::be_nat(peer_scalar),
                log,
            )
    }

    /// Why a peer's element is refused beside the peer's scalar, where it is.
    pub open spec fn element_error(
        self,
        peer_scalar: Seq<u8>,
        peer_elem: Seq<u8>,
    ) -> Option<Seq<char>> {
        if curve::decoded_element(peer_elem) == seq![0u8] {
            Some("failed to reconstruct peer element"@)
        } else if self.shared_point(peer_scalar, peer_elem) == seq![0u8] {
            Some("shared secret is identity"@)
        } else {
            None
        }
    }

    /// Why a peer's commit is refused, where it is.
    pub open spec fn commit_error(
        self,
        peer_scalar: Seq<u8>,
        peer_elem: Seq<u8>,
    ) -> Option<Seq<char>> {
        if peer_scalar_error(peer_scalar) is Some {
            peer_scalar_error(peer_scalar)
        } else {
            self.element_error(peer_scalar.subrange(0, 32), peer_elem)
        }
    }

    /// Whether this is `before` after a peer's commit: it holds the peer's
    /// values and the keys of the exchange.
    pub open spec fn derived(self, before: Self, peer_scalar: Seq<u8>, peer_elem: Seq<u8>) -> bool {
        let val = scalar_sum(before.own_scalar@, peer_scalar);
        let keys = session_keys(before.shared_point(peer_scalar, peer_elem), val);
        &&& self == (SaeAuth {
            peer_scalar: self.peer_scalar,
            peer_elem: self.peer_elem,
            kck: self.kck,
            pmk: self.pmk,
            pmkid: self.pmkid,
            ..before
        })
        &&& self.peer_scalar matches Some(s) && s@ == peer_scalar
        &&& self.peer_elem matches Some(p) && p@ == curve::decoded_element(peer_elem)
        &&& self.kck matches Some(k) && k@ == keys.subrange(0, 32)
        &&& self.pmk matches Some(k) && k@ == keys.subrange(32, 64)
        &&& self.pmkid matches Some(id) && id@ == val.subrange(0, 16)
    }

    /// Derive KCK/PMK/PMKID from the peer's scalar and element.
    pub fn derive_keys(&mut self, peer_scalar: &[u8; 32], peer_elem_bytes: &[u8]) -> (r: Result<
        (),
        WifiError,
    >)
        requires
            old(self).wf(),
            bytes::be_nat(peer_scalar@) < curve::order(),
        ensures
            final(self).wf(),
            old(self).shares_by_log(peer_scalar@, peer_elem_bytes@),
            match old(self).element_error(peer_scalar@, peer_elem_bytes@) {
                None => {
                    &&& r is Ok
                    &&& final(self).derived(*old(self), peer_scalar@, peer_elem_bytes@)
                },
                Some(msg) => {
                    &&& r matches Err(e)
                    &&& e.is(ErrorKind::SaeFailed, msg)
                    &&& *final(self) == *old(self)
                },
            },
    {
        let peer_elem = curve::CurvePoint::from_x_y(peer_elem_bytes);
        // K = rand * (peer_scalar * PWE + peer_elem); k = K.x
        let scaled = curve::mul_point(&self.pwe, peer_scalar);
        let sum = curve::add_points(&scaled, &peer_elem);
        let k_point = curve::mul_point(&sum, &self.rand);
        proof {
            curve::lemma_order();
            let n = curve::order();
            let ps = bytes::be_nat(peer_scalar@);
            assert(k_point@ == self.shared_point(peer_scalar@, peer_elem_bytes@));
            assert forall|a: nat|
                a < n && curve::decoded_element(peer_elem_bytes@) == #[trigger] curve::point_mul(
                    self.pwe@,
                    a,
                ) implies k_point@ == shared_from_log(
                self.pwe@,
                bytes::be_nat(self.rand@),
                ps,
                a,
            ) by {
                assert(scaled@ == curve::point_mul(self.pwe@, ps));
                assert(sum@ == curve::point_mul(self.pwe@, (ps + a) % n));
                vstd::arithmetic::div_mod::lemma_mod_bound((ps + a) as int, n as int);
            }
        }
        if peer_elem.is_identity() {
            return Err(WifiError::new(ErrorKind::SaeFailed, "failed to reconstruct peer element"));
        }
        if k_point.is_identity() {
            return Err(WifiError::new(ErrorKind::SaeFailed, "shared secret is identity"));
        }
        // keyseed = HKDF-Extract(0^32, k)
        let zero: [u8; 32] = [0u8; 32];
        assert(zero@ =~= bytes::zeros(32));
        let k_x = bytes::array32(k_point.sec1.as_slice(), 1);
        let keyseed = kdf::hkdf_extract_sha256(&zero, &k_x);
        // val = (own_scalar + peer_scalar) mod r, encoded big-endian (32 B)
        let val = curve::add_scalars(&self.own_scalar, peer_scalar);
        proof {
            lemma_be_bytes(val@);
        }
        // KCK || PMK = KDF-Hash-256(keyseed, "SAE KCK and PMK", val)
        let keys = kdf::kdf(&keyseed, "SAE KCK and PMK", &val, 64);
        self.peer_scalar = Some(*peer_scalar);
        self.peer_elem = Some(peer_elem);
        self.kck = Some(bytes::array32(keys.as_slice(), 0));
        self.pmk = Some(bytes::array32(keys.as_slice(), 32));
        // PMKID = L(val, 0, 128) = first 16 bytes of val
        self.pmkid = Some(bytes::array16(&val, 0));
        Ok(())
    }

    /// Our confirm value for a peer's commit as it was received.
    pub open spec fn own_confirm(self, peer_scalar: Seq<u8>, peer_elem: Seq<u8>) -> Seq<u8> {
        primitives::hmac_sha256(
            self.kck->0@,
            kdf::confirm_data(1, self.own_scalar@, self.own_elem@, peer_scalar, peer_elem),
        )
    }

    /// Our confirm value for a peer's commit as it was received.
    pub fn build_confirm(&self, peer_scalar_bytes: &[u8], peer_elem_bytes: &[u8]) -> (r: Option<
        Vec<u8>,
    >)
        ensures
            r is Some <==> self.kck is Some,
            r matches Some(c) ==> c@.len() == 32 && c@ == self.own_confirm(
                peer_scalar_bytes@,
                peer_elem_bytes@,
            ),
    {
        match &self.kck {
            Some(kck) => Some(
                kdf::sae_confirm(
                    kck,
                    1,
                    &self.own_scalar,
                    &self.own_elem,
                    peer_scalar_bytes,
                    peer_elem_bytes,
                ),
            ),
            None => None,
        }
    }

    /// Process peer's commit (scalar + element). Derives KCK/PMK/PMKID and
    /// returns our confirm value (32-byte CN output).
    pub fn process_commit(&mut self, peer_scalar_bytes: &[u8], peer_elem_bytes: &[u8]) -> (r: Result<
        Vec<u8>,
        WifiError,
    >)
        requires
            old(self).wf(),
        ensures
            final(self).wf(),
            match old(self).commit_error(peer_scalar_bytes@, peer_elem_bytes@) {
                None => {
                    &&& r is Ok
                    &&& old(self).shares_by_log(
                        peer_scalar_bytes@.subrange(0, 32),
                        peer_elem_bytes@,
                    )
                    &&& final(self).derived(
                        *old(self),
                        peer_scalar_bytes@.subrange(0, 32),
                        peer_elem_bytes@,
                    )
                    &&& r->Ok_0@ == final(self).own_confirm(peer_scalar_bytes@, peer_elem_bytes@)
                    &&& r->Ok_0@.len() == 32
                },
                Some(msg) => {
                    &&& r matches Err(e)
                    &&& e.is(ErrorKind::SaeFailed, msg)
                    &&& *final(self) == *old(self)
                },
            },
    {
        let peer_scalar = match scalar_from_bytes(peer_scalar_bytes) {
            Ok(s) => s,
            Err(e) => {
                return Err(e);
            },
        };
        match self.derive_keys(&peer_scalar, peer_elem_bytes) {
            Ok(()) => {},
            Err(e) => {
                return Err(e);
            },
        }
        match self.build_confirm(peer_scalar_bytes, peer_elem_bytes) {
            Some(confirm) => Ok(confirm),
            None => Err(WifiError::new(ErrorKind::SaeFailed, "no KCK derived")),
        }
    }

    /// The confirm value expected from the peer for a given send-confirm
    /// counter.
    pub open spec fn expected_confirm(self, send_confirm: u16) -> Seq<u8> {
        primitives::hmac_sha256(
            self.kck->0@,
            kdf::confirm_data(
                send_confirm,
                self.peer_scalar->0@,
                self.peer_elem->0.coordinates(),
                self.own_scalar@,
                self.own_elem@,
            ),
        )
    }

    /// Why a peer's confirm is refused, where it is.
    pub open spec fn confirm_error(self, body: Seq<u8>) -> Option<Seq<char>> {
        if self.kck is None {
            Some("no KCK derived - process commit first"@)
        } else if body.len() < 34 {
            Some("confirm too short"@)
        } else if self.expected_confirm(bytes::le16(body[0], body[1])) != body.subrange(2, 34) {
            Some("confirm mismatch"@)
        } else {
            None
        }
    }

    /// Check peer's confirm message body: `send_confirm(2 LE) || CN(32)`.
    /// Returns the PMK.
    pub fn check_confirm(&self, peer_confirm_body: &[u8]) -> (r: Result<[u8; 32], WifiError>)
        requires
            self.wf(),
        ensures
            match self.confirm_error(peer_confirm_body@) {
                None => r matches Ok(pmk) && self.pmk == Some(pmk),
                Some(msg) => r matches Err(e) && e.is(ErrorKind::SaeFailed, msg),
            },
    {
        let (kck, pmk) = match (&self.kck, &self.pmk) {
            (Some(kck), Some(pmk)) => (kck, *pmk),
            _ => {
                return Err(
                    WifiError::new(ErrorKind::SaeFailed, "no KCK derived - process commit first"),
                );
            },
        };
        if peer_confirm_body.len() < 34 {
            return Err(WifiError::new(ErrorKind::SaeFailed, "confirm too short"));
        }
        let expected = match (&self.peer_scalar, &self.peer_elem) {
            (Some(peer_scalar), Some(peer_elem)) => {
                let peer_elem_bytes = peer_elem.to_x_y();
                kdf::sae_confirm(
                    kck,
                    bytes::read_le16(peer_confirm_body, 0),
                    peer_scalar,
                    &peer_elem_bytes,
                    &self.own_scalar,
                    &self.own_elem,
                )
            },
            _ => {
                return Err(WifiError::new(ErrorKind::SaeFailed, "no peer commit processed"));
            },
        };
        let peer_hash = vstd::slice::slice_subrange(peer_confirm_body, 2, 34);
        if !primitives::constant_time_same(expected.as_slice(), peer_hash) {
            return Err(WifiError::new(ErrorKind::SaeFailed, "confirm mismatch"));
        }
        Ok(pmk)
    }

    /// Process peer's confirm message body: `send_confirm(2 LE) || CN(32)`.
    pub fn process_confirm(&mut self, peer_confirm_body: &[u8]) -> (r: Result<[u8; 32], WifiError>)
        requires
            old(self).wf(),
        ensures
            final(self).wf(),
            match old(self).confirm_error(peer_confirm_body@) {
                None => {
                    &&& r matches Ok(pmk)
                    &&& old(self).pmk == Some(pmk)
                    &&& *final(self) == (SaeAuth { confirmed: true, ..*old(self) })
                },
                Some(msg) => {
                    &&& r matches Err(e)
                    &&& e.is(ErrorKind::SaeFailed, msg)
                    &&& *final(self) == *old(self)
                },
            },
    {
        let r = self.check_confirm(peer_confirm_body);
        if r.is_ok() {
            self.confirmed = true;
        }
        r
    }

    pub fn pmk(&self) -> (r: Option<[u8; 32]>)
        ensures
            r == self.pmk,
    {
        self.pmk
    }

    pub fn pmkid(&self) -> (r: Option<[u8; 16]>)
        ensures
            r == self.pmkid,
    {
        self.pmkid
    }

    /// Whether the peer's confirm has been validated (SAE completed).
    pub fn confirmed(&self) -> (r: bool)
        ensures
            r == self.confirmed,
    {
        self.confirmed
    }

    /// Build the initial SAE commit auth_data for `NL80211_ATTR_AUTH_DATA`.
    /// The kernel reads the first 4 bytes as transaction(2 LE) and status(2
    /// LE); the remaining bytes become the authentication frame body. The
    /// status is `SAE_HASH_TO_ELEMENT` (126) for H2E and 0 (success) for
    /// hunting-and-pecking, and the body is:
    ///   group(2 LE) || scalar(32) || element(64) [|| password identifier]
    pub fn build_init_auth_msg(&mut self) -> (r: Result<Vec<u8>, WifiError>)
        requires
            old(self).wf(),
        ensures
            final(self).wf(),
            match r {
                Ok(data) => {
                    &&& final(self).commits(*old(self))
                    &&& data@ == final(self).commit_data(None)
                },
                Err(e) => *final(self) == *old(self) && is_rng_failure(e),
            },
    {
        match self.build_commit() {
            Ok(_) => Ok(self.commit_octets(None)),
            Err(e) => Err(e),
        }
    }

    /// Re-run the commit and return the auth_data for a retry that must echo
    /// the AP's anti-clogging token (status 76 response). Only valid before
    /// any peer commit was processed: a fresh scalar/element pair is generated
    /// and the token is appended after the element - inside the Anti-Clogging
    /// Token Container element for H2E (802.11-2020 §9.4.2.47.4), raw for
    /// hunting-and-pecking.
    pub fn build_commit_with_token(&mut self, token: &[u8]) -> (r: Result<Vec<u8>, WifiError>)
        requires
            old(self).wf(),
            old(self).h2e ==> token@.len() % 256 != 255,
        ensures
            final(self).wf(),
            match r {
                Ok(data) => {
                    &&& old(self).kck is None
                    &&& final(self).commits(*old(self))
                    &&& data@ == final(self).commit_data(Some(token@))
                },
                Err(e) => {
                    &&& *final(self) == *old(self)
                    &&& if old(self).kck is Some {
                        e.is(
                            ErrorKind::SaeFailed,
                            "cannot retry commit with token after processing the peer"@,
                        )
                    } else {
                        is_rng_failure(e)
                    }
                },
            },
    {
        if self.peer_scalar.is_some() || self.confirmed {
            return Err(
                WifiError::new(
                    ErrorKind::SaeFailed,
                    "cannot retry commit with token after processing the peer",
                ),
            );
        }
        match self.build_commit() {
            Ok(_) => Ok(self.commit_octets(Some(token))),
            Err(e) => Err(e),
        }
    }
}

/// Whether an error says that the system gave no randomness; the text of the
/// generator's own error follows the colon.
pub open spec fn is_rng_failure(e: WifiError) -> bool {
    exists|t: Seq<char>| e.is(ErrorKind::SaeFailed, #[trigger] ("rng failure: "@ + t))
}

/// The error of a failed random number generator.
fn rng_failure(t: &String) -> (e: WifiError)
    ensures
        is_rng_failure(e),
        e.is(ErrorKind::SaeFailed, "rng failure: "@ + t@),
{
    let msg = text::text2("rng failure: ", t.as_str());
    WifiError::new(ErrorKind::SaeFailed, msg.as_str())
}

/// The shared point of an exchange whose peer element is the PWE times
/// `log`: the PWE times `rand * (peer_scalar + log)`.
pub open spec fn shared_from_log(pwe: Seq<u8>, rand: nat, peer_scalar: nat, log: nat) -> Seq<u8> {
    curve::point_mul(pwe, (((peer_scalar + log) % curve::order()) * rand) % curve::order())
}

/// Every commit of an exchange under a password identifier carries the
/// identifier in its element, right after our own scalar and element, with an
/// anti-clogging token or without.
pub proof fn law_commit_carries_identifier(s: SaeAuth, id: Seq<u8>, token: Option<Seq<u8>>)
    requires
        s.id() == Some(id),
    ensures
        s.commit_data(token).subrange(102, 105 + id.len() as int) == identifier_octets(id),
{
    assert(s.commit_data(token).subrange(102, 105 + id.len() as int) =~= identifier_octets(id));
}

/// Adding the negated mask to a scalar leaves the other secret.
proof fn lemma_unmasked(r: nat, m: nat, n: nat)
    requires
        r < n,
        m < n,
    ensures
        ((r + m) % n + ((n - m) % n as int) as nat) % n == r,
{
    let s = (r + m) % n;
    if r + m < n {
        vstd::arithmetic::div_mod::lemma_small_mod((r + m) as nat, n);
    } else {
        vstd::arithmetic::div_mod::lemma_small_mod((r + m - n) as nat, n);
        vstd::arithmetic::div_mod::lemma_mod_multiples_vanish(1, (r + m - n) as int, n as int);
    }
    if m == 0 {
        assert(n as int % n as int == 0) by (nonlinear_arith)
            requires
                n > 0,
        ;
        vstd::arithmetic::div_mod::lemma_small_mod(s, n);
    } else {
        vstd::arithmetic::div_mod::lemma_small_mod((n - m) as nat, n);
        if r + m < n {
            vstd::arithmetic::div_mod::lemma_mod_multiples_vanish(1, r as int, n as int);
            vstd::arithmetic::div_mod::lemma_small_mod(r, n);
        } else {
            vstd::arithmetic::div_mod::lemma_small_mod(r, n);
        }
    }
}

/// The element of a commit is decoded to the point it was made from.
proof fn lemma_element_decodes(p: curve::CurvePoint)
    requires
        p.valid(),
    ensures
        curve::decoded_element(p.coordinates()) == p@,
{
    let e = p.coordinates();
    if p.spec_is_identity() {
        assert(e.subrange(0, 32) =~= bytes::zeros(32));
        assert(e.subrange(32, 64) =~= bytes::zeros(32));
        lemma_be_nat_zeros(32);
        curve::lemma_prime();
        let n = curve::prime();
        assert(0nat * 0nat * 0nat == 0 && 0nat * 3 == 0 && 0nat * 0nat == 0);
        vstd::arithmetic::div_mod::lemma_small_mod(0, n);
        assert(n as int % n as int == 0) by (nonlinear_arith)
            requires
                n > 0,
        ;
        vstd::arithmetic::div_mod::lemma_small_mod(curve::curve_b(), n);
        assert(curve::curve_rhs(0) == curve::curve_b());
    } else {
        assert(e.subrange(0, 32) =~= p@.subrange(1, 33));
        assert(e.subrange(32, 64) =~= p@.subrange(33, 65));
        assert(seq![4u8] + e.subrange(0, 64) =~= p@);
    }
}

/// Both sides of an exchange over one PWE arrive at the same keys: from
/// their commits, made from any secrets, and each from the other's commit,
/// they derive one KCK, one PMK and one PMKID, and the confirm that the one
/// makes is the one that the other expects.
pub proof fn law_exchange_agrees(
    a0: SaeAuth,
    a1: SaeAuth,
    a2: SaeAuth,
    b0: SaeAuth,
    b1: SaeAuth,
    b2: SaeAuth,
    r1: Seq<u8>,
    m1: Seq<u8>,
    r2: Seq<u8>,
    m2: Seq<u8>,
)
    requires
        a0.pwe@ == b0.pwe@,
        bytes::be_nat(r1) < curve::order(),
        bytes::be_nat(m1) < curve::order(),
        bytes::be_nat(r2) < curve::order(),
        bytes::be_nat(m2) < curve::order(),
        a1.committed(a0, r1, m1),
        b1.committed(b0, r2, m2),
        a1.shares_by_log(b1.own_scalar@, b1.own_elem@),
        b1.shares_by_log(a1.own_scalar@, a1.own_elem@),
        a2.derived(a1, b1.own_scalar@, b1.own_elem@),
        b2.derived(b1, a1.own_scalar@, a1.own_elem@),
        curve::decoded_element(a1.own_elem@) != seq![0u8],
        curve::decoded_element(b1.own_elem@) != seq![0u8],
    ensures
        a2.kck->0@ == b2.kck->0@,
        a2.pmk->0@ == b2.pmk->0@,
        a2.pmkid->0@ == b2.pmkid->0@,
        b2.expected_confirm(1) == a2.own_confirm(b1.own_scalar@, b1.own_elem@),
{
    let n = curve::order();
    curve::lemma_order();
    let (rn1, mn1) = (bytes::be_nat(r1), bytes::be_nat(m1));
    let (rn2, mn2) = (bytes::be_nat(r2), bytes::be_nat(m2));
    let l1 = ((n - mn1) % n as int) as nat;
    let l2 = ((n - mn2) % n as int) as nat;
    vstd::arithmetic::div_mod::lemma_mod_bound(n - mn1, n as int);
    vstd::arithmetic::div_mod::lemma_mod_bound(n - mn2, n as int);
    let e1 = choose|elem: curve::CurvePoint|
        elem.valid() && elem@ == curve::point_mul(a0.pwe@, l1) && a1.own_elem@
            == elem.coordinates();
    let e2 = choose|elem: curve::CurvePoint|
        elem.valid() && elem@ == curve::point_mul(b0.pwe@, l2) && b1.own_elem@
            == elem.coordinates();
    lemma_element_decodes(e1);
    lemma_element_decodes(e2);
    assert(curve::decoded_element(b1.own_elem@) == curve::point_mul(a1.pwe@, l2));
    assert(curve::decoded_element(a1.own_elem@) == curve::point_mul(b1.pwe@, l1));
    lemma_unmasked(rn1, mn1, n);
    lemma_unmasked(rn2, mn2, n);
    assert(rn2 * rn1 == rn1 * rn2) by (nonlinear_arith);
    assert(a1.shared_point(b1.own_scalar@, b1.own_elem@) == b1.shared_point(
        a1.own_scalar@,
        a1.own_elem@,
    ));
    assert(b2.peer_elem->0.coordinates() =~= e1.coordinates());
}

} // verus!
