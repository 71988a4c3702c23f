//! The NIST P-256 curve: its points, scalars and base field, as computed by
//! the `p256` crate on plain byte strings.

use vstd::prelude::*;

use p256::ecdh::diffie_hellman;
use p256::elliptic_curve::array::Array;
use p256::elliptic_curve::bigint::NonZero;
use p256::elliptic_curve::hazmat::FieldArithmetic;
use p256::elliptic_curve::ops::Reduce;
use p256::elliptic_curve::sec1::{FromSec1Point, ToSec1Point};
use p256::elliptic_curve::{Curve, Field, Generate, PrimeField};
use p256::hash2curve::MapToCurve;
use p256::{
    AffinePoint, NistP256, NonZeroScalar, ProjectivePoint, PublicKey, Scalar, Sec1Point, SecretKey,
    U256,
};

use crate::bytes;

verus! {

/// P-256 field prime `p` (big-endian).
pub const P256_PRIME: [u8; 32] = [
    0xff, 0xff, 0xff, 0xff, 0x00, 0x00, 0x00, 0x01, 0x00, 0x00, 0x00, 0x00, 0x00, 0x00, 0x00, 0x00,
    0x00, 0x00, 0x00, 0x00, 0xff, 0xff, 0xff, 0xff, 0xff, 0xff, 0xff, 0xff, 0xff, 0xff, 0xff, 0xff,
];

/// P-256 curve constant `b` (big-endian).
pub const P256_B: [u8; 32] = [
    0x5a, 0xc6, 0x35, 0xd8, 0xaa, 0x3a, 0x93, 0xe7, 0xb3, 0xeb, 0xbd, 0x55, 0x76, 0x98, 0x86, 0xbc,
    0x65, 0x1d, 0x06, 0xb0, 0xcc, 0x53, 0xb0, 0xf6, 0x3b, 0xce, 0x3c, 0x3e, 0x27, 0xd2, 0x60, 0x4b,
];

/// The octets of the field prime.
pub open spec fn prime_bytes() -> Seq<u8> {
    seq![
        0xffu8, 0xff, 0xff, 0xff, 0x00, 0x00, 0x00, 0x01, 0x00, 0x00, 0x00, 0x00, 0x00, 0x00, 0x00,
        0x00, 0x00, 0x00, 0x00, 0x00, 0xff, 0xff, 0xff, 0xff, 0xff, 0xff, 0xff, 0xff, 0xff, 0xff,
        0xff, 0xff,
    ]
}

/// The octets of the curve constant `b`.
pub open spec fn b_bytes() -> Seq<u8> {
    seq![
        0x5au8, 0xc6, 0x35, 0xd8, 0xaa, 0x3a, 0x93, 0xe7, 0xb3, 0xeb, 0xbd, 0x55, 0x76, 0x98, 0x86,
        0xbc, 0x65, 0x1d, 0x06, 0xb0, 0xcc, 0x53, 0xb0, 0xf6, 0x3b, 0xce, 0x3c, 0x3e, 0x27, 0xd2,
        0x60, 0x4b,
    ]
}

/// The octets of the group order `n`.
pub open spec fn order_bytes() -> Seq<u8> {
    seq![
        0xffu8, 0xff, 0xff, 0xff, 0x00, 0x00, 0x00, 0x00, 0xff, 0xff, 0xff, 0xff, 0xff, 0xff, 0xff,
        0xff, 0xbc, 0xe6, 0xfa, 0xad, 0xa7, 0x17, 0x9e, 0x84, 0xf3, 0xb9, 0xca, 0xc2, 0xfc, 0x63,
        0x25, 0x51,
    ]
}

/// The field prime.
#[verifier::opaque]
pub open spec fn prime() -> nat {
    bytes::be_nat(prime_bytes())
}

/// The curve constant `b`.
#[verifier::opaque]
pub open spec fn curve_b() -> nat {
    bytes::be_nat(b_bytes())
}

/// The group order.
#[verifier::opaque]
pub open spec fn order() -> nat {
    bytes::be_nat(order_bytes())
}

/// `x^3 - 3x + b` in the base field.
pub open spec fn curve_rhs(x: nat) -> nat {
    ((((x * x * x) % prime() + prime() - (x * 3) % prime()) % prime() as int + curve_b())
        % prime() as int) as nat
}

/// Whether two 32-octet strings are the coordinates of a point on the curve.
pub open spec fn on_curve(x: Seq<u8>, y: Seq<u8>) -> bool {
    &&& bytes::be_nat(x) < prime()
    &&& bytes::be_nat(y) < prime()
    &&& (bytes::be_nat(y) * bytes::be_nat(y)) % prime() == curve_rhs(bytes::be_nat(x))
}

/// Whether an element of the base field is a square in it.
pub open spec fn is_square(a: nat) -> bool {
    exists|z: nat| z < prime() && #[trigger] (z * z) % prime() == a
}

/// Whether an octet string is the SEC 1 encoding of a curve point: one zero
/// octet for the identity, otherwise 4 and the two coordinates.
pub open spec fn is_point(s: Seq<u8>) -> bool {
    ||| s == seq![0u8]
    ||| s.len() == 65 && s[0] == 4 && on_curve(s.subrange(1, 33), s.subrange(33, 65))
}

/// A point of the curve in its uncompressed SEC 1 encoding.
#[derive(Debug, Clone)]
pub struct CurvePoint {
    pub sec1: Vec<u8>,
}

impl View for CurvePoint {
    type V = Seq<u8>;

    open spec fn view(&self) -> Seq<u8> {
        self.sec1@
    }
}

/// The encoding of what `ProjectivePoint * Scalar` gives for the point
/// encoded as `p` and the scalar `k`.
pub uninterp spec fn point_mul(p: Seq<u8>, k: nat) -> Seq<u8>;

/// The encoding of what `ProjectivePoint + ProjectivePoint` gives for the
/// points encoded as `p` and `q`.
pub uninterp spec fn point_add(p: Seq<u8>, q: Seq<u8>) -> Seq<u8>;

/// The encoding of what `Neg::neg` of a `ProjectivePoint` gives for the
/// point encoded as `p`.
pub uninterp spec fn point_neg(p: Seq<u8>) -> Seq<u8>;

/// The encoding of the point that `MapToCurve::map_to_curve` gives for the
/// field element that 48 octets reduce to.
pub uninterp spec fn sswu_point(okm: Seq<u8>) -> Seq<u8>;

/// The encoding of the point that `SecretKey::public_key` gives for the
/// secret scalar `d`.
pub uninterp spec fn public_point(d: nat) -> Seq<u8>;

impl CurvePoint {
    /// Whether the octets encode a point of the curve.
    pub open spec fn valid(self) -> bool {
        is_point(self.sec1@)
    }

    /// Whether this is the identity.
    pub open spec fn spec_is_identity(self) -> bool {
        self.sec1@ == seq![0u8]
    }

    /// The identity.
    pub fn identity() -> (r: Self)
        ensures
            r.valid(),
            r.spec_is_identity(),
    {
        let mut sec1: Vec<u8> = Vec::new();
        sec1.push(0);
        assert(sec1@ =~= seq![0u8]);
        CurvePoint { sec1 }
    }

    /// Whether this is the identity.
    pub fn is_identity(&self) -> (r: bool)
        requires
            self.valid(),
        ensures
            r == self.spec_is_identity(),
    {
        self.sec1.len() == 1
    }

    /// Another value of the same point.
    pub fn copy(&self) -> (r: Self)
        ensures
            r@ == self@,
    {
        CurvePoint { sec1: bytes::to_vec(self.sec1.as_slice()) }
    }

    /// The coordinates `x || y`; zero for the identity.
    pub open spec fn coordinates(self) -> Seq<u8> {
        if self.spec_is_identity() {
            bytes::zeros(64)
        } else {
            self.sec1@.subrange(1, 65)
        }
    }

    /// Encode a point as 64-byte x||y (uncompressed without prefix).
    pub fn to_x_y(&self) -> (r: [u8; 64])
        requires
            self.valid(),
        ensures
            r@ == self.coordinates(),
    {
        if self.sec1.len() == 1 {
            let r: [u8; 64] = [0u8; 64];
            assert(r@ =~= bytes::zeros(64));
            r
        } else {
            bytes::array64(self.sec1.as_slice(), 1)
        }
    }

    /// Reconstruct a curve point from a 64-byte x||y encoding; the identity
    /// where the octets are too few or no point of the curve.
    pub fn from_x_y(elem: &[u8]) -> (r: Self)
        ensures
            r.valid(),
            r@ == decoded_element(elem@),
    {
        if elem.len() < 64 {
            return CurvePoint::identity();
        }
        let xy = bytes::array64(elem, 0);
        assert(xy@.subrange(0, 32) =~= elem@.subrange(0, 32));
        assert(xy@.subrange(32, 64) =~= elem@.subrange(32, 64));
        if !coordinates_on_curve(&xy) {
            return CurvePoint::identity();
        }
        let mut sec1: Vec<u8> = Vec::new();
        sec1.push(4);
        bytes::append(&mut sec1, &xy);
        assert(sec1@ =~= seq![4u8] + elem@.subrange(0, 64));
        assert(sec1@.subrange(1, 33) =~= elem@.subrange(0, 32));
        assert(sec1@.subrange(33, 65) =~= elem@.subrange(32, 64));
        CurvePoint { sec1 }
    }
}

/// The point that an element of a commit message stands for: the one with
/// those coordinates, or the identity where there is none.
pub open spec fn decoded_element(elem: Seq<u8>) -> Seq<u8> {
    if elem.len() >= 64 && on_curve(elem.subrange(0, 32), elem.subrange(32, 64)) {
        seq![4u8] + elem.subrange(0, 64)
    } else {
        seq![0u8]
    }
}

/// `p256::AffinePoint::from_sec1_point` of a `Sec1Point` made of two affine
/// coordinates: whether both are field elements and satisfy the curve
/// equation.
#[verifier::external_body]
fn coordinates_on_curve(xy: &[u8; 64]) -> (r: bool)
    ensures
        r == on_curve(xy@.subrange(0, 32), xy@.subrange(32, 64)),
{
    let x = Array::try_from(&xy[..32]).unwrap();
    let y = Array::try_from(&xy[32..]).unwrap();
    let point = Sec1Point::from_affine_coordinates(&x, &y, false);
    bool::from(AffinePoint::from_sec1_point(&point).is_some())
}

/// `p256::Scalar::from_repr`: whether 32 octets are a scalar below the group
/// order.
#[verifier::external_body]
pub(crate) fn is_scalar(k: &[u8; 32]) -> (r: bool)
    ensures
        r == (bytes::be_nat(k@) < order()),
{
    bool::from(Scalar::from_repr((*k).into()).is_some())
}

/// The sum of two `p256::Scalar`s, modulo the group order.
#[verifier::external_body]
pub(crate) fn add_scalars(a: &[u8; 32], b: &[u8; 32]) -> (r: [u8; 32])
    requires
        bytes::be_nat(a@) < order(),
        bytes::be_nat(b@) < order(),
    ensures
        bytes::be_nat(r@) == (bytes::be_nat(a@) + bytes::be_nat(b@)) % order(),
{
    let a = Scalar::from_repr((*a).into()).unwrap();
    let b = Scalar::from_repr((*b).into()).unwrap();
    (a + b).to_bytes().into()
}

/// `p256::NonZeroScalar` drawn by `Generate::try_generate_from_rng` from the
/// operating system's generator (`getrandom::SysRng`): some scalar that is
/// not zero, or the text of the generator's error.
#[verifier::external_body]
pub(crate) fn random_scalar() -> (r: Result<[u8; 32], String>)
    ensures
        r matches Ok(k) ==> 0 < bytes::be_nat(k@) < order(),
{
    match NonZeroScalar::try_generate_from_rng(&mut getrandom::SysRng) {
        Ok(k) => Ok(k.to_bytes().into()),
        Err(e) => Err(e.to_string()),
    }
}

/// A `p256::ProjectivePoint` times a `p256::Scalar`: again a point, and a
/// multiple of a multiple is the multiple by the product.
#[verifier::external_body]
pub(crate) fn mul_point(p: &CurvePoint, k: &[u8; 32]) -> (r: CurvePoint)
    requires
        p.valid(),
        bytes::be_nat(k@) < order(),
    ensures
        r.valid(),
        r@ == point_mul(p@, bytes::be_nat(k@)),
        forall|q: Seq<u8>, j: nat|
            is_point(q) && j < order() && p@ == #[trigger] point_mul(q, j) ==> r@ == point_mul(
                q,
                (j * bytes::be_nat(k@)) % order(),
            ),
{
    let p = AffinePoint::from_sec1_point(&Sec1Point::from_bytes(&p.sec1).unwrap()).unwrap();
    let r = ProjectivePoint::from(p) * Scalar::from_repr((*k).into()).unwrap();
    CurvePoint { sec1: r.to_affine().to_sec1_point(false).as_bytes().to_vec() }
}

/// The sum of two `p256::ProjectivePoint`s: again a point, and the sum of
/// two multiples is the multiple by the sum.
#[verifier::external_body]
pub(crate) fn add_points(p: &CurvePoint, o: &CurvePoint) -> (r: CurvePoint)
    requires
        p.valid(),
        o.valid(),
    ensures
        r.valid(),
        r@ == point_add(p@, o@),
        forall|q: Seq<u8>, i: nat, j: nat|
            is_point(q) && i < order() && j < order() && p@ == #[trigger] point_mul(q, i) && o@
                == #[trigger] point_mul(q, j) ==> r@ == point_mul(q, (i + j) % order()),
{
    let p = AffinePoint::from_sec1_point(&Sec1Point::from_bytes(&p.sec1).unwrap()).unwrap();
    let o = AffinePoint::from_sec1_point(&Sec1Point::from_bytes(&o.sec1).unwrap()).unwrap();
    let r = ProjectivePoint::from(p) + ProjectivePoint::from(o);
    CurvePoint { sec1: r.to_affine().to_sec1_point(false).as_bytes().to_vec() }
}

/// The negation of a `p256::ProjectivePoint`: again a point, and that of a
/// multiple is the multiple by the negated scalar.
#[verifier::external_body]
pub(crate) fn neg_point(p: &CurvePoint) -> (r: CurvePoint)
    requires
        p.valid(),
    ensures
        r.valid(),
        r@ == point_neg(p@),
        forall|q: Seq<u8>, j: nat|
            is_point(q) && j < order() && p@ == #[trigger] point_mul(q, j) ==> r@ == point_mul(
                q,
                ((order() - j) % order() as int) as nat,
            ),
{
    let p = AffinePoint::from_sec1_point(&Sec1Point::from_bytes(&p.sec1).unwrap()).unwrap();
    let r = -ProjectivePoint::from(p);
    CurvePoint { sec1: r.to_affine().to_sec1_point(false).as_bytes().to_vec() }
}

/// `p256::hash2curve::MapToCurve::map_to_curve` of the field element that
/// `Reduce::reduce` makes of 48 octets (the simplified SWU map).
#[verifier::external_body]
pub(crate) fn map_to_curve(okm: &[u8; 48]) -> (r: CurvePoint)
    ensures
        r.valid(),
        r@ == sswu_point(okm@),
{
    let okm = Array::try_from(&okm[..]).unwrap();
    let u = <NistP256 as MapToCurve>::FieldElement::reduce(&okm);
    let p: ProjectivePoint = <NistP256 as MapToCurve>::map_to_curve(u);
    CurvePoint { sec1: p.to_affine().to_sec1_point(false).as_bytes().to_vec() }
}

/// `p256::NistP256::ORDER`, the group order.
#[verifier::external_body]
pub(crate) fn group_order() -> (r: [u8; 32])
    ensures
        bytes::be_nat(r@) == order(),
{
    NistP256::ORDER.as_ref().to_be_bytes().into()
}

/// `p256::U256::wrapping_sub`, on numbers whose difference is not negative.
#[verifier::external_body]
pub(crate) fn sub_u256(a: &[u8; 32], b: &[u8; 32]) -> (r: [u8; 32])
    requires
        bytes::be_nat(b@) <= bytes::be_nat(a@),
    ensures
        bytes::be_nat(r@) == bytes::be_nat(a@) - bytes::be_nat(b@),
{
    U256::from_be_slice(a).wrapping_sub(&U256::from_be_slice(b)).to_be_bytes().into()
}

/// The remainder of a `p256::U256` by a `NonZero<U256>`.
#[verifier::external_body]
pub(crate) fn rem_u256(a: &[u8; 32], m: &[u8; 32]) -> (r: [u8; 32])
    requires
        bytes::be_nat(m@) > 0,
    ensures
        bytes::be_nat(r@) == bytes::be_nat(a@) % bytes::be_nat(m@),
{
    let m = NonZero::new(U256::from_be_slice(m)).unwrap();
    (U256::from_be_slice(a) % m).to_be_bytes().into()
}

/// `p256::U256::wrapping_add`, on numbers whose sum is at most the group
/// order.
#[verifier::external_body]
pub(crate) fn add_u256(a: &[u8; 32], b: &[u8; 32]) -> (r: [u8; 32])
    requires
        bytes::be_nat(a@) + bytes::be_nat(b@) <= order(),
    ensures
        bytes::be_nat(r@) == bytes::be_nat(a@) + bytes::be_nat(b@),
{
    U256::from_be_slice(a).wrapping_add(&U256::from_be_slice(b)).to_be_bytes().into()
}

/// `from_repr` of the P-256 base field: whether 32 octets are a field
/// element below the prime.
#[verifier::external_body]
pub(crate) fn is_field_element(x: &[u8; 32]) -> (r: bool)
    ensures
        r == (bytes::be_nat(x@) < prime()),
{
    bool::from(<NistP256 as FieldArithmetic>::FieldElement::from_repr((*x).into()).is_some())
}

/// `Field::cube` in the P-256 base field.
#[verifier::external_body]
pub(crate) fn cube_field(x: &[u8; 32]) -> (r: [u8; 32])
    requires
        bytes::be_nat(x@) < prime(),
    ensures
        bytes::be_nat(r@) == (bytes::be_nat(x@) * bytes::be_nat(x@) * bytes::be_nat(x@)) % prime(),
{
    let x = <NistP256 as FieldArithmetic>::FieldElement::from_repr((*x).into()).unwrap();
    x.cube().to_repr().into()
}

/// The product of two elements of the P-256 base field.
#[verifier::external_body]
pub(crate) fn mul_field(a: &[u8; 32], b: &[u8; 32]) -> (r: [u8; 32])
    requires
        bytes::be_nat(a@) < prime(),
        bytes::be_nat(b@) < prime(),
    ensures
        bytes::be_nat(r@) == (bytes::be_nat(a@) * bytes::be_nat(b@)) % prime(),
{
    let a = <NistP256 as FieldArithmetic>::FieldElement::from_repr((*a).into()).unwrap();
    let b = <NistP256 as FieldArithmetic>::FieldElement::from_repr((*b).into()).unwrap();
    (a * b).to_repr().into()
}

/// The difference of two elements of the P-256 base field.
#[verifier::external_body]
pub(crate) fn sub_field(a: &[u8; 32], b: &[u8; 32]) -> (r: [u8; 32])
    requires
        bytes::be_nat(a@) < prime(),
        bytes::be_nat(b@) < prime(),
    ensures
        bytes::be_nat(r@) == (bytes::be_nat(a@) + prime() - bytes::be_nat(b@)) % prime() as int,
{
    let a = <NistP256 as FieldArithmetic>::FieldElement::from_repr((*a).into()).unwrap();
    let b = <NistP256 as FieldArithmetic>::FieldElement::from_repr((*b).into()).unwrap();
    (a - b).to_repr().into()
}

/// The sum of two elements of the P-256 base field.
#[verifier::external_body]
pub(crate) fn add_field(a: &[u8; 32], b: &[u8; 32]) -> (r: [u8; 32])
    requires
        bytes::be_nat(a@) < prime(),
        bytes::be_nat(b@) < prime(),
    ensures
        bytes::be_nat(r@) == (bytes::be_nat(a@) + bytes::be_nat(b@)) % prime(),
{
    let a = <NistP256 as FieldArithmetic>::FieldElement::from_repr((*a).into()).unwrap();
    let b = <NistP256 as FieldArithmetic>::FieldElement::from_repr((*b).into()).unwrap();
    (a + b).to_repr().into()
}

/// The negation of an element of the P-256 base field.
#[verifier::external_body]
pub(crate) fn neg_field(a: &[u8; 32]) -> (r: [u8; 32])
    requires
        bytes::be_nat(a@) < prime(),
    ensures
        bytes::be_nat(r@) == (prime() - bytes::be_nat(a@)) % prime() as int,
{
    let a = <NistP256 as FieldArithmetic>::FieldElement::from_repr((*a).into()).unwrap();
    (-a).to_repr().into()
}

/// `Field::sqrt` in the P-256 base field: one of the square roots, none
/// where there is none.
#[verifier::external_body]
pub(crate) fn sqrt_field(a: &[u8; 32]) -> (r: Option<[u8; 32]>)
    requires
        bytes::be_nat(a@) < prime(),
    ensures
        match r {
            Some(y) => bytes::be_nat(y@) < prime() && (bytes::be_nat(y@) * bytes::be_nat(y@))
                % prime() == bytes::be_nat(a@),
            None => !is_square(bytes::be_nat(a@)),
        },
{
    let a = <NistP256 as FieldArithmetic>::FieldElement::from_repr((*a).into()).unwrap();
    Option::from(a.sqrt()).map(
        |y: <NistP256 as FieldArithmetic>::FieldElement| y.to_repr().into(),
    )
}

/// `p256::SecretKey` drawn by `Generate::try_generate`: some scalar that is
/// not zero; none where the system gives no randomness.
#[verifier::external_body]
pub(crate) fn random_secret_key() -> (r: Option<[u8; 32]>)
    ensures
        r matches Some(d) ==> 0 < bytes::be_nat(d@) < order(),
{
    SecretKey::try_generate().ok().map(|d| d.to_bytes().into())
}

/// `p256::SecretKey::public_key`: a point that is not the identity.
#[verifier::external_body]
pub(crate) fn public_key(d: &[u8; 32]) -> (r: CurvePoint)
    requires
        0 < bytes::be_nat(d@) < order(),
    ensures
        r.valid(),
        !r.spec_is_identity(),
        r@ == public_point(bytes::be_nat(d@)),
{
    let key = SecretKey::from_bytes(&(*d).into()).unwrap().public_key();
    CurvePoint { sec1: key.to_sec1_point(false).as_bytes().to_vec() }
}

/// `p256::PublicKey::from_sec1_bytes` of a compressed point whose tag 2 says
/// that `y` is even: the point with that `x`, none where the curve has no
/// such point.
#[verifier::external_body]
pub(crate) fn decompress(sec1: &[u8; 33]) -> (r: Option<CurvePoint>)
    requires
        sec1@[0] == 2,
    ensures
        match r {
            Some(p) => {
                &&& p.valid()
                &&& p@.len() == 65
                &&& p@.subrange(1, 33) == sec1@.subrange(1, 33)
                &&& bytes::be_nat(p@.subrange(33, 65)) % 2 == 0
            },
            None => {
                let x = bytes::be_nat(sec1@.subrange(1, 33));
                x >= prime() || !is_square(curve_rhs(x))
            },
        },
{
    let key = PublicKey::from_sec1_bytes(sec1).ok()?;
    Some(CurvePoint { sec1: key.to_sec1_point(false).as_bytes().to_vec() })
}

/// `p256::ecdh::diffie_hellman`: the `x` coordinate of the peer's point
/// times our secret. Where the peer's point has the `x` of a public point, it
/// is the `x` of either public point times the other's secret: both sides get
/// the same one, and the sign of the peer's `y` does not matter.
#[verifier::external_body]
pub(crate) fn shared_x(d: &[u8; 32], peer: &CurvePoint) -> (r: [u8; 32])
    requires
        0 < bytes::be_nat(d@) < order(),
        peer.valid(),
        !peer.spec_is_identity(),
    ensures
        r@ == point_mul(peer@, bytes::be_nat(d@)).subrange(1, 33),
        forall|e: nat|
            0 < e < order() && peer@.subrange(1, 33) == (#[trigger] public_point(e)).subrange(1, 33)
                ==> {
                &&& r@ == point_mul(public_point(e), bytes::be_nat(d@)).subrange(1, 33)
                &&& r@ == point_mul(public_point(bytes::be_nat(d@)), e).subrange(1, 33)
            },
{
    let secret = SecretKey::from_bytes(&(*d).into()).unwrap();
    let peer = PublicKey::from_sec1_bytes(&peer.sec1).unwrap();
    let shared = diffie_hellman(secret.to_nonzero_scalar(), peer.as_affine());
    (*shared.raw_secret_bytes()).into()
}

/// The prime is odd and above 3, and the curve constant is below it and not
/// zero.
pub proof fn lemma_prime()
    ensures
        prime() > 3,
        prime() % 2 == 1,
        0 < curve_b() < prime(),
{
    reveal(prime);
    reveal(curve_b);
    let p = prime_bytes();
    let b = b_bytes();
    lemma_be_nat_split(p, 1);
    lemma_be_nat_split(b, 1);
    lemma_be_nat_bound(b.subrange(1, 32));
    assert(p.subrange(0, 1) =~= seq![0xffu8]);
    assert(b.subrange(0, 1) =~= seq![0x5au8]);
    reveal_with_fuel(bytes::be_nat, 2);
    assert(seq![0xffu8].drop_last() =~= Seq::<u8>::empty());
    assert(seq![0x5au8].drop_last() =~= Seq::<u8>::empty());
    assert(bytes::be_nat(seq![0xffu8]) == 0xff);
    assert(bytes::be_nat(seq![0x5au8]) == 0x5a);
    let w = pow256(31);
    lemma_pow256_pos(31);
    assert(bytes::be_nat(p) == 0xff * w + bytes::be_nat(p.subrange(1, 32)));
    assert(bytes::be_nat(b) == 0x5a * w + bytes::be_nat(b.subrange(1, 32)));
    assert(bytes::be_nat(b) < 0x5b * w) by (nonlinear_arith)
        requires
            bytes::be_nat(b) == 0x5a * w + bytes::be_nat(b.subrange(1, 32)),
            bytes::be_nat(b.subrange(1, 32)) < w,
    ;
    assert(0x5b * w <= 0xff * w) by (nonlinear_arith)
        requires
            w > 0,
    ;
    assert(p.last() == 0xff);
    assert(bytes::be_nat(p) == 256 * bytes::be_nat(p.drop_last()) + 0xff);
}

/// The group order is above 2.
pub proof fn lemma_order()
    ensures
        order() > 2,
{
    reveal(order);
    let n = order_bytes();
    assert(bytes::be_nat(n) == 256 * bytes::be_nat(n.drop_last()) + 0x51);
}

/// 256 to the power `n`.
pub open spec fn pow256(n: nat) -> nat
    decreases n,
{
    if n == 0 {
        1
    } else {
        256 * pow256((n - 1) as nat)
    }
}

proof fn lemma_pow256_pos(n: nat)
    ensures
        pow256(n) > 0,
    decreases n,
{
    if n > 0 {
        lemma_pow256_pos((n - 1) as nat);
    }
}

/// The value of a byte string is below 256 to its length.
pub proof fn lemma_be_nat_bound(s: Seq<u8>)
    ensures
        bytes::be_nat(s) < pow256(s.len()),
    decreases s.len(),
{
    if s.len() > 0 {
        lemma_be_nat_bound(s.drop_last());
    }
}

/// The value of a byte string from its first `k` octets and the rest.
pub proof fn lemma_be_nat_split(s: Seq<u8>, k: nat)
    requires
        k <= s.len(),
    ensures
        bytes::be_nat(s) == bytes::be_nat(s.subrange(0, k as int)) * pow256((s.len() - k) as nat)
            + bytes::be_nat(s.subrange(k as int, s.len() as int)),
    decreases s.len(),
{
    if k == s.len() {
        assert(s.subrange(0, k as int) =~= s);
        assert(s.subrange(k as int, s.len() as int) =~= Seq::<u8>::empty());
        assert(pow256(0) == 1);
        assert(bytes::be_nat(s) * 1 == bytes::be_nat(s));
    } else {
        let t = s.drop_last();
        lemma_be_nat_split(t, k);
        assert(t.subrange(0, k as int) =~= s.subrange(0, k as int));
        let tail = s.subrange(k as int, s.len() as int);
        assert(tail.drop_last() =~= t.subrange(k as int, t.len() as int));
        let a = bytes::be_nat(s.subrange(0, k as int));
        let w = pow256((t.len() - k) as nat);
        let rest = bytes::be_nat(tail.drop_last());
        assert(pow256((s.len() - k) as nat) == 256 * w);
        assert(bytes::be_nat(t) == a * w + rest);
        assert(bytes::be_nat(tail) == 256 * rest + s.last());
        assert(256 * (a * w + rest) == a * (256 * w) + 256 * rest) by (nonlinear_arith);
    }
}

/// A negated square root is a square root, of the other parity unless it is
/// zero.
pub proof fn lemma_negated_root(y: nat)
    requires
        y < prime(),
    ensures
        ({
            let z = ((prime() - y) % prime() as int) as nat;
            &&& z < prime()
            &&& (z * z) % prime() == (y * y) % prime()
            &&& y != 0 ==> z % 2 != y % 2
            &&& y == 0 ==> z == 0
        }),
{
    lemma_prime();
    let p = prime();
    if y == 0 {
        assert(p % p == 0) by (nonlinear_arith)
            requires
                p > 0,
        ;
    } else {
        let z = (p - y) as nat;
        vstd::arithmetic::div_mod::lemma_small_mod(z, p);
        assert(z * z == y * y + p * (p - 2 * y)) by (nonlinear_arith)
            requires
                z == p - y,
        ;
        vstd::arithmetic::div_mod::lemma_mod_multiples_vanish(
            (p - 2 * y) as int,
            (y * y) as int,
            p as int,
        );
    }
}

/// The field of the curve has `2^256 - 2^224 + 2^192 + 2^96 - 1` elements, and
/// its constant and its group are those of P-256, here by 64 bits at a time.
#[verifier::spinoff_prover]
#[verifier::rlimit(40)]
pub proof fn law_curve_parameters()
    ensures
        prime() == 0xffff_ffff_0000_0001 * pow256(24) + 0xffff_ffff * pow256(8)
            + 0xffff_ffff_ffff_ffff,
        curve_b() == 0x5ac6_35d8_aa3a_93e7 * pow256(24) + 0xb3eb_bd55_7698_86bc * pow256(16)
            + 0x651d_06b0_cc53_b0f6 * pow256(8) + 0x3bce_3c3e_27d2_604b,
        order() == 0xffff_ffff_0000_0000 * pow256(24) + 0xffff_ffff_ffff_ffff * pow256(16)
            + 0xbce6_faad_a717_9e84 * pow256(8) + 0xf3b9_cac2_fc63_2551,
{
    reveal(prime);
    reveal(curve_b);
    reveal(order);
    assert(bytes::be64_bytes(0xffff_ffff_0000_0001) =~= seq![
        0xffu8, 0xff, 0xff, 0xff, 0x00, 0x00, 0x00, 0x01,
    ]);
    assert(bytes::be64_bytes(0x0000_0000_0000_0000) =~= seq![
        0x00u8, 0x00, 0x00, 0x00, 0x00, 0x00, 0x00, 0x00,
    ]);
    assert(bytes::be64_bytes(0x0000_0000_ffff_ffff) =~= seq![
        0x00u8, 0x00, 0x00, 0x00, 0xff, 0xff, 0xff, 0xff,
    ]);
    assert(bytes::be64_bytes(0xffff_ffff_ffff_ffff) =~= seq![
        0xffu8, 0xff, 0xff, 0xff, 0xff, 0xff, 0xff, 0xff,
    ]);
    assert(prime_bytes() =~= bytes::be64_bytes(0xffff_ffff_0000_0001) + bytes::be64_bytes(0x0000_0000_0000_0000)
        + bytes::be64_bytes(0x0000_0000_ffff_ffff) + bytes::be64_bytes(0xffff_ffff_ffff_ffff));
    lemma_by_64_bits(
        prime_bytes(),
        0xffff_ffff_0000_0001,
        0x0000_0000_0000_0000,
        0x0000_0000_ffff_ffff,
        0xffff_ffff_ffff_ffff,
    );
    assert(bytes::be64_bytes(0x5ac6_35d8_aa3a_93e7) =~= seq![
        0x5au8, 0xc6, 0x35, 0xd8, 0xaa, 0x3a, 0x93, 0xe7,
    ]);
    assert(bytes::be64_bytes(0xb3eb_bd55_7698_86bc) =~= seq![
        0xb3u8, 0xeb, 0xbd, 0x55, 0x76, 0x98, 0x86, 0xbc,
    ]);
    assert(bytes::be64_bytes(0x651d_06b0_cc53_b0f6) =~= seq![
        0x65u8, 0x1d, 0x06, 0xb0, 0xcc, 0x53, 0xb0, 0xf6,
    ]);
    assert(bytes::be64_bytes(0x3bce_3c3e_27d2_604b) =~= seq![
        0x3bu8, 0xce, 0x3c, 0x3e, 0x27, 0xd2, 0x60, 0x4b,
    ]);
    assert(b_bytes() =~= bytes::be64_bytes(0x5ac6_35d8_aa3a_93e7) + bytes::be64_bytes(0xb3eb_bd55_7698_86bc)
        + bytes::be64_bytes(0x651d_06b0_cc53_b0f6) + bytes::be64_bytes(0x3bce_3c3e_27d2_604b));
    lemma_by_64_bits(
        b_bytes(),
        0x5ac6_35d8_aa3a_93e7,
        0xb3eb_bd55_7698_86bc,
        0x651d_06b0_cc53_b0f6,
        0x3bce_3c3e_27d2_604b,
    );
    assert(bytes::be64_bytes(0xffff_ffff_0000_0000) =~= seq![
        0xffu8, 0xff, 0xff, 0xff, 0x00, 0x00, 0x00, 0x00,
    ]);
    assert(bytes::be64_bytes(0xffff_ffff_ffff_ffff) =~= seq![
        0xffu8, 0xff, 0xff, 0xff, 0xff, 0xff, 0xff, 0xff,
    ]);
    assert(bytes::be64_bytes(0xbce6_faad_a717_9e84) =~= seq![
        0xbcu8, 0xe6, 0xfa, 0xad, 0xa7, 0x17, 0x9e, 0x84,
    ]);
    assert(bytes::be64_bytes(0xf3b9_cac2_fc63_2551) =~= seq![
        0xf3u8, 0xb9, 0xca, 0xc2, 0xfc, 0x63, 0x25, 0x51,
    ]);
    assert(order_bytes() =~= bytes::be64_bytes(0xffff_ffff_0000_0000) + bytes::be64_bytes(0xffff_ffff_ffff_ffff)
        + bytes::be64_bytes(0xbce6_faad_a717_9e84) + bytes::be64_bytes(0xf3b9_cac2_fc63_2551));
    lemma_by_64_bits(
        order_bytes(),
        0xffff_ffff_0000_0000,
        0xffff_ffff_ffff_ffff,
        0xbce6_faad_a717_9e84,
        0xf3b9_cac2_fc63_2551,
    );
}

/// The value of 32 octets from four 64-bit values.
proof fn lemma_by_64_bits(s: Seq<u8>, a: u64, b: u64, c: u64, d: u64)
    requires
        s == bytes::be64_bytes(a) + bytes::be64_bytes(b) + bytes::be64_bytes(c)
            + bytes::be64_bytes(d),
    ensures
        bytes::be_nat(s) == a * pow256(24) + b * pow256(16) + c * pow256(8) + d,
{
    bytes::lemma_be64_bytes(a);
    bytes::lemma_be64_bytes(b);
    bytes::lemma_be64_bytes(c);
    bytes::lemma_be64_bytes(d);
    let s1 = s.subrange(8, 32);
    let s2 = s.subrange(16, 32);
    lemma_be_nat_split(s, 8);
    lemma_be_nat_split(s1, 8);
    lemma_be_nat_split(s2, 8);
    assert(s.subrange(0, 8) =~= bytes::be64_bytes(a));
    assert(s1.subrange(0, 8) =~= bytes::be64_bytes(b));
    assert(s1.subrange(8, 24) =~= s2);
    assert(s2.subrange(0, 8) =~= bytes::be64_bytes(c));
    assert(s2.subrange(8, 16) =~= bytes::be64_bytes(d));
}

} // verus!
