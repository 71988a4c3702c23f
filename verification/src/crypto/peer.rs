//! The other side of each exchange: what an access point computes, written
//! out octet by octet over the hash functions and the curve, and the laws
//! that a station arrives at the same values.

use vstd::prelude::*;
use vstd::string::*;

use crate::bytes;
use crate::client::fast_transition::{is_pmk_r1, KeyHolders};
use crate::crypto::curve;
use crate::crypto::ft;
use crate::crypto::handshake4;
use crate::crypto::handshake4::MicAlg;
use crate::crypto::kdf;
use crate::crypto::owe;
use crate::crypto::primitives;
use crate::crypto::sae;
use crate::error::{ErrorKind, WifiError};

verus! {

// ---- Labels of the derivations, as octets ----

/// The octets of `SAE Hash to Element u1 P1`.
pub open spec fn octets_u1_p1() -> Seq<u8> {
    seq![
        0x53u8, 0x41, 0x45, 0x20, 0x48, 0x61, 0x73, 0x68, 0x20, 0x74, 0x6f, 0x20, 0x45,
        0x6c, 0x65, 0x6d, 0x65, 0x6e, 0x74, 0x20, 0x75, 0x31, 0x20, 0x50, 0x31,
    ]
}

/// The label is made of its ASCII octets.
pub proof fn lemma_octets_u1_p1()
    ensures
        "SAE Hash to Element u1 P1".spec_bytes() == octets_u1_p1(),
{
    reveal_strlit("SAE Hash to Element u1 P1");
    is_ascii_spec_bytes("SAE Hash to Element u1 P1");
    assert("SAE Hash to Element u1 P1"@.len() == 25);
    assert("SAE Hash to Element u1 P1".spec_bytes() =~= octets_u1_p1());
}

/// The octets of `SAE Hash to Element u2 P2`.
pub open spec fn octets_u2_p2() -> Seq<u8> {
    seq![
        0x53u8, 0x41, 0x45, 0x20, 0x48, 0x61, 0x73, 0x68, 0x20, 0x74, 0x6f, 0x20, 0x45,
        0x6c, 0x65, 0x6d, 0x65, 0x6e, 0x74, 0x20, 0x75, 0x32, 0x20, 0x50, 0x32,
    ]
}

/// The label is made of its ASCII octets.
pub proof fn lemma_octets_u2_p2()
    ensures
        "SAE Hash to Element u2 P2".spec_bytes() == octets_u2_p2(),
{
    reveal_strlit("SAE Hash to Element u2 P2");
    is_ascii_spec_bytes("SAE Hash to Element u2 P2");
    assert("SAE Hash to Element u2 P2"@.len() == 25);
    assert("SAE Hash to Element u2 P2".spec_bytes() =~= octets_u2_p2());
}

/// The octets of `SAE Hunting and Pecking`.
pub open spec fn octets_hunting() -> Seq<u8> {
    seq![
        0x53u8, 0x41, 0x45, 0x20, 0x48, 0x75, 0x6e, 0x74, 0x69, 0x6e, 0x67, 0x20, 0x61,
        0x6e, 0x64, 0x20, 0x50, 0x65, 0x63, 0x6b, 0x69, 0x6e, 0x67,
    ]
}

/// The label is made of its ASCII octets.
pub proof fn lemma_octets_hunting()
    ensures
        "SAE Hunting and Pecking".spec_bytes() == octets_hunting(),
{
    reveal_strlit("SAE Hunting and Pecking");
    is_ascii_spec_bytes("SAE Hunting and Pecking");
    assert("SAE Hunting and Pecking"@.len() == 23);
    assert("SAE Hunting and Pecking".spec_bytes() =~= octets_hunting());
}

/// The octets of `SAE KCK and PMK`.
pub open spec fn octets_kck_and_pmk() -> Seq<u8> {
    seq![0x53u8, 0x41, 0x45, 0x20, 0x4b, 0x43, 0x4b, 0x20, 0x61, 0x6e, 0x64, 0x20, 0x50, 0x4d, 0x4b]
}

/// The label is made of its ASCII octets.
pub proof fn lemma_octets_kck_and_pmk()
    ensures
        "SAE KCK and PMK".spec_bytes() == octets_kck_and_pmk(),
{
    reveal_strlit("SAE KCK and PMK");
    is_ascii_spec_bytes("SAE KCK and PMK");
    assert("SAE KCK and PMK"@.len() == 15);
    assert("SAE KCK and PMK".spec_bytes() =~= octets_kck_and_pmk());
}

/// The octets of `Pairwise key expansion`.
pub open spec fn octets_pairwise() -> Seq<u8> {
    seq![
        0x50u8, 0x61, 0x69, 0x72, 0x77, 0x69, 0x73, 0x65, 0x20, 0x6b, 0x65, 0x79, 0x20,
        0x65, 0x78, 0x70, 0x61, 0x6e, 0x73, 0x69, 0x6f, 0x6e,
    ]
}

/// The label is made of its ASCII octets.
pub proof fn lemma_octets_pairwise()
    ensures
        "Pairwise key expansion".spec_bytes() == octets_pairwise(),
{
    reveal_strlit("Pairwise key expansion");
    is_ascii_spec_bytes("Pairwise key expansion");
    assert("Pairwise key expansion"@.len() == 22);
    assert("Pairwise key expansion".spec_bytes() =~= octets_pairwise());
}

/// The octets of `OWE Key Generation`.
pub open spec fn octets_owe() -> Seq<u8> {
    seq![
        0x4fu8, 0x57, 0x45, 0x20, 0x4b, 0x65, 0x79, 0x20, 0x47, 0x65, 0x6e, 0x65, 0x72,
        0x61, 0x74, 0x69, 0x6f, 0x6e,
    ]
}

/// The label is made of its ASCII octets.
pub proof fn lemma_octets_owe()
    ensures
        "OWE Key Generation".spec_bytes() == octets_owe(),
{
    reveal_strlit("OWE Key Generation");
    is_ascii_spec_bytes("OWE Key Generation");
    assert("OWE Key Generation"@.len() == 18);
    assert("OWE Key Generation".spec_bytes() =~= octets_owe());
}

/// The octets of `FT-R0`.
pub open spec fn octets_ft_r0() -> Seq<u8> {
    seq![0x46u8, 0x54, 0x2d, 0x52, 0x30]
}

/// The label is made of its ASCII octets.
pub proof fn lemma_octets_ft_r0()
    ensures
        "FT-R0".spec_bytes() == octets_ft_r0(),
{
    reveal_strlit("FT-R0");
    is_ascii_spec_bytes("FT-R0");
    assert("FT-R0"@.len() == 5);
    assert("FT-R0".spec_bytes() =~= octets_ft_r0());
}

/// The octets of `FT-R1`.
pub open spec fn octets_ft_r1() -> Seq<u8> {
    seq![0x46u8, 0x54, 0x2d, 0x52, 0x31]
}

/// The label is made of its ASCII octets.
pub proof fn lemma_octets_ft_r1()
    ensures
        "FT-R1".spec_bytes() == octets_ft_r1(),
{
    reveal_strlit("FT-R1");
    is_ascii_spec_bytes("FT-R1");
    assert("FT-R1"@.len() == 5);
    assert("FT-R1".spec_bytes() =~= octets_ft_r1());
}

/// The octets of `FT-PTK`.
pub open spec fn octets_ft_ptk() -> Seq<u8> {
    seq![0x46u8, 0x54, 0x2d, 0x50, 0x54, 0x4b]
}

/// The label is made of its ASCII octets.
pub proof fn lemma_octets_ft_ptk()
    ensures
        "FT-PTK".spec_bytes() == octets_ft_ptk(),
{
    reveal_strlit("FT-PTK");
    is_ascii_spec_bytes("FT-PTK");
    assert("FT-PTK"@.len() == 6);
    assert("FT-PTK".spec_bytes() =~= octets_ft_ptk());
}

// ---- Expansions, block by block ----

/// The first 48 octets of the HKDF expansion of a key: two blocks, each over
/// the block before it, the info and the number of the block.
pub open spec fn expanded_48(prk: Seq<u8>, info: Seq<u8>) -> Seq<u8> {
    let t1 = primitives::hmac_sha256(prk, info + seq![1u8]);
    let t2 = primitives::hmac_sha256(prk, t1 + info + seq![2u8]);
    (t1 + t2).subrange(0, 48)
}

/// The first 32 octets of the HKDF expansion of a key.
pub open spec fn expanded_32(prk: Seq<u8>, info: Seq<u8>) -> Seq<u8> {
    primitives::hmac_sha256(prk, info + seq![1u8]).subrange(0, 32)
}

/// The first 48 octets of the 802.11 KDF with SHA-256: each block covers its
/// number, the label, the context and the number of bits (384), numbers least
/// significant octet first.
pub open spec fn kdf_384(key: Seq<u8>, label: Seq<u8>, context: Seq<u8>) -> Seq<u8> {
    let h1 = primitives::hmac_sha256(key, seq![1u8, 0] + label + context + seq![0x80u8, 1]);
    let h2 = primitives::hmac_sha256(key, seq![2u8, 0] + label + context + seq![0x80u8, 1]);
    (h1 + h2).subrange(0, 48)
}

/// The first 32 octets of the 802.11 KDF with SHA-256 (256 bits).
pub open spec fn kdf_256(key: Seq<u8>, label: Seq<u8>, context: Seq<u8>) -> Seq<u8> {
    primitives::hmac_sha256(key, seq![1u8, 0] + label + context + seq![0u8, 1]).subrange(0, 32)
}

/// The first 64 octets of the 802.11 KDF with SHA-256 (512 bits).
pub open spec fn kdf_512(key: Seq<u8>, label: Seq<u8>, context: Seq<u8>) -> Seq<u8> {
    let h1 = primitives::hmac_sha256(key, seq![1u8, 0] + label + context + seq![0u8, 2]);
    let h2 = primitives::hmac_sha256(key, seq![2u8, 0] + label + context + seq![0u8, 2]);
    (h1 + h2).subrange(0, 64)
}

/// The first 48 octets of the 802.11 PRF with SHA-1: each block covers the
/// label, a zero octet, the context and the number of the block from zero.
pub open spec fn prf_384(key: Seq<u8>, label: Seq<u8>, context: Seq<u8>) -> Seq<u8> {
    let h0 = primitives::hmac_sha1(key, label + seq![0u8] + context + seq![0u8]);
    let h1 = primitives::hmac_sha1(key, label + seq![0u8] + context + seq![1u8]);
    let h2 = primitives::hmac_sha1(key, label + seq![0u8] + context + seq![2u8]);
    (h0 + h1 + h2).subrange(0, 48)
}

/// HKDF expansions are the ones written out above.
pub proof fn law_hkdf_blocks(prk: Seq<u8>, info: Seq<u8>)
    ensures
        kdf::hkdf_expand_output(prk, info, 48) == expanded_48(prk, info),
        kdf::hkdf_expand_output(prk, info, 32) == expanded_32(prk, info),
{
    reveal_with_fuel(kdf::hkdf_blocks, 3);
    reveal_with_fuel(kdf::hkdf_block, 3);
    let t1 = primitives::hmac_sha256(prk, info + seq![1u8]);
    let t2 = primitives::hmac_sha256(prk, t1 + info + seq![2u8]);
    assert(Seq::<u8>::empty() + info + seq![1u8] =~= info + seq![1u8]);
    assert(kdf::hkdf_block(prk, info, 1) == t1);
    assert(kdf::hkdf_block(prk, info, 2) == t2);
    assert(Seq::<u8>::empty() + t1 =~= t1);
    assert(kdf::hkdf_blocks(prk, info, 1) == t1);
    assert(kdf::hkdf_blocks(prk, info, 2) == t1 + t2);
}

/// Outputs of the 802.11 KDF are the ones written out above.
pub proof fn law_kdf_blocks(key: Seq<u8>, label: Seq<u8>, context: Seq<u8>)
    ensures
        kdf::kdf_output(key, label, context, 32) == kdf_256(key, label, context),
        kdf::kdf_output(key, label, context, 48) == kdf_384(key, label, context),
        kdf::kdf_output(key, label, context, 64) == kdf_512(key, label, context),
{
    reveal_with_fuel(kdf::kdf_blocks, 3);
    assert(bytes::le16_bytes(1) =~= seq![1u8, 0]);
    assert(bytes::le16_bytes(2) =~= seq![2u8, 0]);
    assert(bytes::le16_bytes(256) =~= seq![0u8, 1]);
    assert(bytes::le16_bytes(384) =~= seq![0x80u8, 1]);
    assert(bytes::le16_bytes(512) =~= seq![0u8, 2]);
    assert forall|bits: u16| kdf::kdf_blocks(key, label, context, bits, 1)
        == primitives::hmac_sha256(
        key,
        seq![1u8, 0] + label + context + #[trigger] bytes::le16_bytes(bits),
    ) by {
        let h = primitives::hmac_sha256(
            key,
            seq![1u8, 0] + label + context + bytes::le16_bytes(bits),
        );
        assert(Seq::<u8>::empty() + h =~= h);
    }
}

/// Outputs of the 802.11 PRF are the ones written out above.
pub proof fn law_prf_blocks(key: Seq<u8>, label: Seq<u8>, context: Seq<u8>)
    ensures
        kdf::prf_sha1_output(key, label, context, 48) == prf_384(key, label, context),
{
    reveal_with_fuel(kdf::prf_sha1_blocks, 4);
    let h0 = primitives::hmac_sha1(key, label + seq![0u8] + context + seq![0u8]);
    assert(Seq::<u8>::empty() + h0 =~= h0);
    assert(kdf::prf_sha1_blocks(key, label, context, 1) == h0);
}

// ---- SAE ----

/// The password token of a network, as an access point derives it: the sum of
/// the two points that the two labelled expansions of the seed map to.
pub open spec fn ap_password_token(ssid: Seq<u8>, secret: Seq<u8>) -> Seq<u8> {
    let seed = primitives::hmac_sha256(ssid, secret);
    curve::point_add(
        curve::sswu_point(expanded_48(seed, octets_u1_p1())),
        curve::sswu_point(expanded_48(seed, octets_u2_p2())),
    )
}

/// Two addresses of an access point and a station, the greater first.
pub open spec fn greater_first(mac_ap: Seq<u8>, mac_sta: Seq<u8>) -> Seq<u8> {
    if bytes::be_nat(mac_ap) > bytes::be_nat(mac_sta) {
        mac_ap + mac_sta
    } else {
        mac_sta + mac_ap
    }
}

/// The password element by hash-to-element, as an access point derives it.
pub open spec fn ap_password_element(
    secret: Seq<u8>,
    ssid: Seq<u8>,
    mac_ap: Seq<u8>,
    mac_sta: Seq<u8>,
) -> Seq<u8> {
    let val = primitives::hmac_sha256(
        Seq::new(32, |i: int| 0u8),
        greater_first(mac_ap, mac_sta),
    );
    curve::point_mul(
        ap_password_token(ssid, secret),
        (bytes::be_nat(val) % (curve::order() - 1) as nat + 1) as nat,
    )
}

/// The two labels of the password token are the octets of
/// `SAE Hash to Element u1 P1` and of `SAE Hash to Element u2 P2`: the token
/// that a station derives is the one an access point derives.
pub proof fn law_password_token_labels(ssid: Seq<u8>, secret: Seq<u8>)
    ensures
        sae::password_token(ssid, secret) == ap_password_token(ssid, secret),
{
    let seed = primitives::hmac_sha256(ssid, secret);
    lemma_octets_u1_p1();
    lemma_octets_u2_p2();
    law_hkdf_blocks(seed, octets_u1_p1());
    law_hkdf_blocks(seed, octets_u2_p2());
}

/// Whatever password element hash-to-element gives a station, it is the one
/// that the access point derives from the same password, network and
/// addresses, and it is refused only where that one is the identity.
pub proof fn law_password_element_agrees(
    secret: Seq<u8>,
    ssid: Seq<u8>,
    mac_sta: Seq<u8>,
    mac_ap: Seq<u8>,
    r: Result<curve::CurvePoint, WifiError>,
)
    requires
        mac_sta.len() == 6,
        mac_ap.len() == 6,
        sae::pwe_h2e_outcome(secret, ssid, mac_sta, mac_ap, r),
    ensures
        r matches Ok(p) ==> p@ == ap_password_element(secret, ssid, mac_ap, mac_sta),
        r is Err ==> ap_password_token(ssid, secret) == seq![0u8] || ap_password_element(
            secret,
            ssid,
            mac_ap,
            mac_sta,
        ) == seq![0u8],
{
    law_password_token_labels(ssid, secret);
    sae::lemma_sorted_macs_symmetric(mac_sta, mac_ap);
    assert(bytes::zeros(32) =~= Seq::new(32, |i: int| 0u8));
}

/// A new exchange by hash-to-element starts from the password element that
/// the access point derives, from the password followed by its identifier.
pub proof fn law_exchange_starts_from_password(
    s: sae::SaeAuth,
    password: Seq<u8>,
    ssid: Seq<u8>,
    mac_sta: Seq<u8>,
    mac_ap: Seq<u8>,
    fallback: bool,
    id: Option<Seq<u8>>,
)
    requires
        mac_sta.len() == 6,
        mac_ap.len() == 6,
        s.is_fresh(password, ssid, mac_sta, mac_ap, true, fallback, id),
    ensures
        id is None ==> s.pwe@ == ap_password_element(password, ssid, mac_ap, mac_sta),
        id matches Some(i) ==> s.pwe@ == ap_password_element(
            password + i,
            ssid,
            mac_ap,
            mac_sta,
        ),
{
    let secret = sae::secret_of(password, id);
    law_password_token_labels(ssid, secret);
    sae::lemma_sorted_macs_symmetric(mac_sta, mac_ap);
    assert(bytes::zeros(32) =~= Seq::new(32, |i: int| 0u8));
}

/// The candidate of a round of hunting-and-pecking, as an access point
/// derives it.
pub open spec fn ap_candidate(password: Seq<u8>, macs: Seq<u8>, counter: u8) -> Seq<u8> {
    kdf_256(
        primitives::hmac_sha256(macs, password + seq![counter]),
        octets_hunting(),
        curve::prime_bytes(),
    )
}

/// Whether a candidate is the x-coordinate of a point.
pub open spec fn ap_takes(x: Seq<u8>) -> bool {
    bytes::be_nat(x) < curve::prime() && curve::is_square(curve::curve_rhs(bytes::be_nat(x)))
}

/// A new exchange by hunting-and-pecking starts from the point of the first
/// round whose candidate the access point takes, the one of its two points
/// whose y is odd exactly where the seed of the round is.
pub proof fn law_exchange_hunts_and_pecks(
    s: sae::SaeAuth,
    password: Seq<u8>,
    ssid: Seq<u8>,
    mac_sta: Seq<u8>,
    mac_ap: Seq<u8>,
    fallback: bool,
    id: Option<Seq<u8>>,
) -> (c: u8)
    requires
        mac_sta.len() == 6,
        mac_ap.len() == 6,
        s.is_fresh(password, ssid, mac_sta, mac_ap, false, fallback, id),
    ensures
        1 <= c <= 200,
        ({
            let macs = greater_first(mac_ap, mac_sta);
            let seed = primitives::hmac_sha256(macs, password + seq![c]);
            let y = bytes::be_nat(s.pwe@.subrange(33, 65));
            &&& ap_takes(ap_candidate(password, macs, c))
            &&& s.pwe@.subrange(1, 33) == ap_candidate(password, macs, c)
            &&& y == 0 || (y % 2 == 1 <==> seed[31] % 2 == 1)
        }),
        forall|d: u8|
            1 <= d < c ==> !ap_takes(
                #[trigger] ap_candidate(password, greater_first(mac_ap, mac_sta), d),
            ),
{
    let macs = greater_first(mac_ap, mac_sta);
    sae::lemma_sorted_macs_symmetric(mac_sta, mac_ap);
    lemma_octets_hunting();
    let n = choose|n: nat|
        {
            &&& 1 <= n <= sae::HNP_MAX_ITER
            &&& sae::hnp_hit(password, macs, n)
            &&& forall|d: nat| 1 <= d < n ==> !sae::hnp_hit(password, macs, d)
            &&& #[trigger] sae::is_hnp_point(s.pwe@, password, macs, n)
        };
    let c = n as u8;
    law_kdf_blocks(
        primitives::hmac_sha256(macs, password + seq![c]),
        octets_hunting(),
        curve::prime_bytes(),
    );
    assert forall|d: u8| 1 <= d < c implies !ap_takes(
        #[trigger] ap_candidate(password, macs, d),
    ) by {
        law_kdf_blocks(
            primitives::hmac_sha256(macs, password + seq![d]),
            octets_hunting(),
            curve::prime_bytes(),
        );
        assert(!sae::hnp_hit(password, macs, d as nat));
        assert(d as nat as u8 == d);
    }
    c
}

/// An exchange is refused for its configuration exactly where the password
/// identifier has more than 254 octets, and by hunting-and-pecking for want of a
/// password element only where none of 200 rounds gives a candidate that the
/// access point takes.
pub proof fn law_no_exchange(
    e: WifiError,
    password: Seq<u8>,
    ssid: Seq<u8>,
    mac_sta: Seq<u8>,
    mac_ap: Seq<u8>,
    h2e: bool,
    id: Option<Seq<u8>>,
    c: u8,
)
    requires
        mac_sta.len() == 6,
        mac_ap.len() == 6,
        sae::no_exchange(e, password, ssid, mac_sta, mac_ap, h2e, id),
    ensures
        e.kind == ErrorKind::InvalidConfig <==> h2e && id is Some && id->0.len() > 254,
        !h2e && 1 <= c <= 200 ==> !ap_takes(
            ap_candidate(password, greater_first(mac_ap, mac_sta), c),
        ),
        h2e && (id is None || id->0.len() <= 254) ==> ({
            let secret = match id {
                Some(i) => password + i,
                None => password,
            };
            ap_password_token(ssid, secret) == seq![0u8] || ap_password_element(
                secret,
                ssid,
                mac_ap,
                mac_sta,
            ) == seq![0u8]
        }),
{
    let macs = greater_first(mac_ap, mac_sta);
    sae::lemma_sorted_macs_symmetric(mac_sta, mac_ap);
    if h2e {
        law_password_token_labels(ssid, sae::secret_of(password, id));
        assert(bytes::zeros(32) =~= Seq::new(32, |i: int| 0u8));
    } else if 1 <= c <= 200 {
        lemma_octets_hunting();
        law_kdf_blocks(
            primitives::hmac_sha256(macs, password + seq![c]),
            octets_hunting(),
            curve::prime_bytes(),
        );
        assert(!sae::hnp_hit(password, macs, c as nat));
        assert(c as nat as u8 == c);
    }
}

/// The keys of an exchange are the two halves of the expansion of the shared
/// x-coordinate over the sum of both scalars: the first half confirms, the
/// second is the PMK, and the sum names it.
pub proof fn law_session_keys(
    before: sae::SaeAuth,
    after: sae::SaeAuth,
    peer_scalar: Seq<u8>,
    peer_elem: Seq<u8>,
)
    requires
        after.derived(before, peer_scalar, peer_elem),
    ensures
        ({
            let k = curve::point_mul(
                curve::point_add(
                    curve::point_mul(before.pwe@, bytes::be_nat(peer_scalar)),
                    curve::decoded_element(peer_elem),
                ),
                bytes::be_nat(before.rand@),
            );
            let sum = sae::be_bytes(
                (bytes::be_nat(before.own_scalar@) + bytes::be_nat(peer_scalar)) % curve::order(),
                32,
            );
            let seed = primitives::hmac_sha256(
                Seq::new(32, |i: int| 0u8),
                k.subrange(1, 33),
            );
            let keys = kdf_512(seed, octets_kck_and_pmk(), sum);
            &&& after.kck->0@ == keys.subrange(0, 32)
            &&& after.pmk->0@ == keys.subrange(32, 64)
            &&& after.pmkid->0@ == sum.subrange(0, 16)
        }),
{
    let val = sae::scalar_sum(before.own_scalar@, peer_scalar);
    let k = before.shared_point(peer_scalar, peer_elem);
    assert(bytes::zeros(32) =~= Seq::new(32, |i: int| 0u8));
    lemma_octets_kck_and_pmk();
    law_kdf_blocks(
        primitives::hmac_sha256(bytes::zeros(32), k.subrange(1, 33)),
        octets_kck_and_pmk(),
        val,
    );
}

/// What a confirm authenticates: the counter of the sender, least significant
/// octet first, then the sender's scalar and element, then the receiver's.
pub open spec fn confirm_by_sender(
    kck: Seq<u8>,
    counter: u16,
    sender_scalar: Seq<u8>,
    sender_elem: Seq<u8>,
    receiver_scalar: Seq<u8>,
    receiver_elem: Seq<u8>,
) -> Seq<u8> {
    primitives::hmac_sha256(
        kck,
        seq![(counter % 256) as u8, (counter / 256) as u8] + sender_scalar + sender_elem
            + receiver_scalar + receiver_elem,
    )
}

/// Our confirm is that of a sender whose counter is one; the confirm of the
/// peer is taken exactly where it is that of a sender with the peer's scalar
/// and element and the counter in its first two octets.
pub proof fn law_confirms(s: sae::SaeAuth, peer_scalar: Seq<u8>, peer_elem: Seq<u8>, body: Seq<u8>)
    requires
        s.wf(),
        s.kck is Some,
        body.len() >= 34,
    ensures
        s.own_confirm(peer_scalar, peer_elem) == confirm_by_sender(
            s.kck->0@,
            1,
            s.own_scalar@,
            s.own_elem@,
            peer_scalar,
            peer_elem,
        ),
        s.confirm_error(body) is None <==> body.subrange(2, 34) == confirm_by_sender(
            s.kck->0@,
            (body[0] + 256 * body[1]) as u16,
            s.peer_scalar->0@,
            s.peer_elem->0@.subrange(1, 65),
            s.own_scalar@,
            s.own_elem@,
        ),
{
    let c = (body[0] + 256 * body[1]) as u16;
    assert(bytes::le16_bytes(c) =~= seq![(c % 256) as u8, (c / 256) as u8]);
    assert(bytes::le16_bytes(1) =~= seq![(1u16 % 256) as u8, (1u16 / 256) as u8]);
}

/// A commit starts with the transaction 1, the status (126 by hash-to-element,
/// 0 by hunting-and-pecking) and the group 19, each least significant octet
/// first; then stand our scalar and our element, then the identifier in its
/// element, then the anti-clogging token, in its container by
/// hash-to-element.
pub proof fn law_commit_layout(s: sae::SaeAuth, token: Option<Seq<u8>>)
    requires
        s.wf(),
        token matches Some(t) ==> t.len() < 255,
    ensures
        ({
            let d = s.commit_data(token);
            let id_end = match s.id() {
                Some(id) => 105 + id.len() as int,
                None => 102,
            };
            &&& d.subrange(0, 2) == seq![1u8, 0]
            &&& d.subrange(2, 4) == if s.h2e {
                seq![126u8, 0]
            } else {
                seq![0u8, 0]
            }
            &&& d.subrange(4, 6) == seq![19u8, 0]
            &&& d.subrange(6, 38) == s.own_scalar@
            &&& d.subrange(38, 102) == s.own_elem@
            &&& s.id() matches Some(id) ==> d.subrange(102, 105) == seq![
                255u8,
                (1 + id.len()) as u8,
                33,
            ] && d.subrange(105, id_end) == id
            &&& token is None ==> d.len() == id_end
            &&& token matches Some(t) ==> if s.h2e {
                d.subrange(id_end, d.len() as int) == seq![255u8, (1 + t.len()) as u8, 93] + t
            } else {
                d.subrange(id_end, d.len() as int) == t
            }
        }),
{
    let d = s.commit_data(token);
    let id_end = match s.id() {
        Some(id) => 105 + id.len() as int,
        None => 102,
    };
    assert(d.subrange(0, 2) =~= seq![1u8, 0]);
    assert(d.subrange(4, 6) =~= seq![19u8, 0]);
    assert(d.subrange(6, 38) =~= s.own_scalar@);
    assert(d.subrange(38, 102) =~= s.own_elem@);
    match s.id() {
        Some(id) => {
            assert(d.subrange(102, 105) =~= seq![255u8, (1 + id.len()) as u8, 33]);
            assert(d.subrange(105, id_end) =~= id);
        },
        None => {},
    }
    match token {
        Some(t) => {
            assert(t.len() % 256 == t.len());
            if s.h2e {
                assert(d.subrange(id_end, d.len() as int) =~= seq![255u8, (1 + t.len()) as u8, 93]
                    + t);
            } else {
                assert(d.subrange(id_end, d.len() as int) =~= t);
            }
        },
        None => {},
    }
}

// ---- OWE ----

/// The PMK that an access point with the secret scalar `a` derives with a
/// client whose public key is `client`: the salt of the extraction is the
/// client's key, the access point's own and the group (19).
pub open spec fn ap_owe_pmk(a: nat, client: nat) -> Seq<u8> {
    let c_pub = curve::public_point(client).subrange(1, 33);
    let a_pub = curve::public_point(a).subrange(1, 33);
    let z = curve::point_mul(curve::public_point(client), a).subrange(1, 33);
    expanded_32(
        primitives::hmac_sha256(c_pub + a_pub + seq![19u8, 0], z),
        octets_owe(),
    )
}

/// A client and an access point arrive at one PMK: with the access point's
/// public key in the Diffie-Hellman data, the client's PMK is what the access
/// point derives with the client's key first in the salt, and the PMKID is
/// over the client's key and the access point's, in this order.
pub proof fn law_owe_agrees(sta: owe::OweAuth, done: owe::OweAuth, dh_data: Seq<u8>, a: nat)
    requires
        sta.wf(),
        done.derives(sta, dh_data),
        0 < a < curve::order(),
        dh_data.subrange(2, 34) == curve::public_point(a).subrange(1, 33),
    ensures
        done.pmk->0@ == ap_owe_pmk(a, bytes::be_nat(sta.secret@)),
        done.pmkid->0@ == primitives::sha256(
            curve::public_point(bytes::be_nat(sta.secret@)).subrange(1, 33)
                + curve::public_point(a).subrange(1, 33),
        ).subrange(0, 16),
{
    let c = bytes::be_nat(sta.secret@);
    let ours = sta.our_pubkey_raw@;
    let theirs = curve::public_point(a).subrange(1, 33);
    let z = choose|z: Seq<u8>| #[trigger]
        owe::is_shared_x(z, c, theirs) && done.pmk->0@ == owe::owe_pmk(z, ours, theirs);
    assert(z == curve::point_mul(curve::public_point(c), a).subrange(1, 33));
    assert(bytes::le16_bytes(19) =~= seq![19u8, 0]);
    lemma_octets_owe();
    law_hkdf_blocks(
        primitives::hmac_sha256(ours + theirs + seq![19u8, 0], z),
        octets_owe(),
    );
}

/// The Diffie-Hellman element is an extended element (255) with the extension
/// 32, which holds the group (19), least significant octet first, and the
/// key; data for another group is refused.
pub proof fn law_owe_element(pubkey: Seq<u8>, dh_data: Seq<u8>)
    requires
        pubkey.len() == 32,
    ensures
        owe::dh_element(pubkey) == seq![255u8, 35, 32, 19, 0] + pubkey,
        owe::dh_error(dh_data) is None ==> dh_data.len() >= 34 && dh_data[0] == 19 && dh_data[1]
            == 0,
{
    assert(owe::dh_element(pubkey) =~= seq![255u8, 35, 32, 19, 0] + pubkey);
}

// ---- Pairwise keys ----

/// Both addresses and both nonces, the lesser of each pair first.
pub open spec fn lesser_first(
    mac_ap: Seq<u8>,
    mac_sta: Seq<u8>,
    anonce: Seq<u8>,
    snonce: Seq<u8>,
) -> Seq<u8> {
    (if bytes::be_nat(mac_sta) < bytes::be_nat(mac_ap) {
        mac_sta + mac_ap
    } else {
        mac_ap + mac_sta
    }) + (if bytes::be_nat(snonce) < bytes::be_nat(anonce) {
        snonce + anonce
    } else {
        anonce + snonce
    })
}

/// Octet strings of one length are ordered as the numbers they stand for.
pub proof fn lemma_order_is_numeric(a: Seq<u8>, b: Seq<u8>)
    requires
        a.len() == b.len(),
    ensures
        bytes::lex_less(a, b) <==> bytes::be_nat(a) < bytes::be_nat(b),
    decreases a.len(),
{
    if a.len() > 0 {
        let n = a.len() as int;
        let (x, y) = (a.drop_first(), b.drop_first());
        lemma_order_is_numeric(x, y);
        curve::lemma_be_nat_split(a, 1);
        curve::lemma_be_nat_split(b, 1);
        assert(a.subrange(1, n) =~= x && b.subrange(1, n) =~= y);
        lemma_one_octet(a.subrange(0, 1));
        lemma_one_octet(b.subrange(0, 1));
        curve::lemma_be_nat_bound(x);
        curve::lemma_be_nat_bound(y);
        let w = curve::pow256((n - 1) as nat) as int;
        let (p, q) = (a[0] as int, b[0] as int);
        let (s, t) = (bytes::be_nat(x) as int, bytes::be_nat(y) as int);
        assert(p < q ==> p * w + s < q * w + t) by (nonlinear_arith)
            requires
                0 <= s < w,
                0 <= t < w,
        ;
        assert(q < p ==> q * w + t < p * w + s) by (nonlinear_arith)
            requires
                0 <= s < w,
                0 <= t < w,
        ;
    }
}

/// The value of one octet.
proof fn lemma_one_octet(s: Seq<u8>)
    requires
        s.len() == 1,
    ensures
        bytes::be_nat(s) == s[0],
{
    reveal_with_fuel(bytes::be_nat, 2);
    assert(s.drop_last() =~= Seq::<u8>::empty());
}

/// The pairwise key of an access point: by the SHA-1 PRF where the MIC is by
/// HMAC-SHA1, by the SHA-256 KDF otherwise, over both addresses and both
/// nonces, the lesser of each pair first.
pub proof fn law_pairwise_key_agrees(
    alg: MicAlg,
    pmk: Seq<u8>,
    mac_ap: Seq<u8>,
    mac_sta: Seq<u8>,
    anonce: Seq<u8>,
    snonce: Seq<u8>,
)
    requires
        mac_ap.len() == 6,
        mac_sta.len() == 6,
        anonce.len() == 32,
        snonce.len() == 32,
    ensures
        ({
            let context = lesser_first(mac_ap, mac_sta, anonce, snonce);
            handshake4::pairwise_ptk(
                alg,
                pmk,
                handshake4::ptk_context(mac_ap, mac_sta, anonce, snonce),
            ) == if alg is HmacSha1 {
                prf_384(pmk, octets_pairwise(), context)
            } else {
                kdf_384(pmk, octets_pairwise(), context)
            }
        }),
{
    let context = lesser_first(mac_ap, mac_sta, anonce, snonce);
    handshake4::law_ptk_context_symmetric(mac_ap, mac_sta, anonce, snonce);
    lemma_order_is_numeric(snonce, anonce);
    lemma_order_is_numeric(anonce, snonce);
    if bytes::be_nat(anonce) == bytes::be_nat(snonce) {
        bytes::lemma_be_nat_injective(anonce, snonce);
    }
    assert(handshake4::ptk_context(mac_ap, mac_sta, anonce, snonce) == context);
    lemma_octets_pairwise();
    law_kdf_blocks(pmk, octets_pairwise(), context);
    law_prf_blocks(pmk, octets_pairwise(), context);
}

/// The MIC of each algorithm: AES-CMAC whole, the two HMACs by their first 16
/// octets.
pub proof fn law_mic_algorithms(kck: Seq<u8>, data: Seq<u8>)
    ensures
        handshake4::mic_value(MicAlg::AesCmac, kck, data) == primitives::aes_128_cmac(kck, data),
        handshake4::mic_value(MicAlg::HmacSha256, kck, data) == primitives::hmac_sha256(
            kck,
            data,
        ).subrange(0, 16),
        handshake4::mic_value(MicAlg::HmacSha1, kck, data) == primitives::hmac_sha1(
            kck,
            data,
        ).subrange(0, 16),
{
}

// ---- Derivations of any length, octet by octet ----

/// The blocks of the KDF, octet by octet.
proof fn lemma_kdf_block(
    key: Seq<u8>,
    label: Seq<u8>,
    context: Seq<u8>,
    bits: u16,
    n: nat,
    i: int,
)
    requires
        forall|d: Seq<u8>| (#[trigger] primitives::hmac_sha256(key, d)).len() == 32,
        0 <= i < 32 * n,
        n < 65536,
    ensures
        kdf::kdf_blocks(key, label, context, bits, n).len() == 32 * n,
        kdf::kdf_blocks(key, label, context, bits, n)[i] == primitives::hmac_sha256(
            key,
            bytes::le16_bytes((i / 32 + 1) as u16) + label + context + bytes::le16_bytes(bits),
        )[i % 32],
    decreases n,
{
    let front = kdf::kdf_blocks(key, label, context, bits, (n - 1) as nat);
    if n > 1 {
        lemma_kdf_block(key, label, context, bits, (n - 1) as nat, 0);
        if i < 32 * (n - 1) {
            lemma_kdf_block(key, label, context, bits, (n - 1) as nat, i);
        }
    } else {
        assert(front.len() == 0);
    }
    if i >= 32 * (n - 1) {
        assert(i / 32 == n - 1 && i % 32 == i - 32 * (n - 1));
    }
}

/// Octet `i` of a KDF output is octet `i mod 32` of the block numbered from one
/// that holds it, and each block is the HMAC-SHA256 over its number, the label,
/// the context and the length of the whole output in bits.
pub proof fn law_kdf_octets(
    key: Seq<u8>,
    label: Seq<u8>,
    context: Seq<u8>,
    length: nat,
    i: int,
)
    requires
        forall|d: Seq<u8>| (#[trigger] primitives::hmac_sha256(key, d)).len() == 32,
        0 <= i < length,
        length <= 8191,
    ensures
        kdf::kdf_output(key, label, context, length)[i] == primitives::hmac_sha256(
            key,
            seq![((i / 32 + 1) % 256) as u8, ((i / 32 + 1) / 256) as u8] + label + context + seq![
                (8 * length % 256) as u8,
                (8 * length / 256) as u8,
            ],
        )[i % 32],
{
    let n = kdf::block_count(length, 32);
    let bits = ((length * 8) % 0x1_0000) as u16;
    lemma_kdf_block(key, label, context, bits, n, i);
    let k = (i / 32 + 1) as u16;
    assert(bytes::le16_bytes(k) =~= seq![
        ((i / 32 + 1) % 256) as u8,
        ((i / 32 + 1) / 256) as u8,
    ]);
    assert(bytes::le16_bytes(bits) =~= seq![
        (8 * length % 256) as u8,
        (8 * length / 256) as u8,
    ]);
}

/// The blocks of the PRF, octet by octet.
proof fn lemma_prf_block(key: Seq<u8>, label: Seq<u8>, context: Seq<u8>, n: nat, i: int)
    requires
        forall|d: Seq<u8>| (#[trigger] primitives::hmac_sha1(key, d)).len() == 20,
        0 <= i < 20 * n,
        n < 256,
    ensures
        kdf::prf_sha1_blocks(key, label, context, n).len() == 20 * n,
        kdf::prf_sha1_blocks(key, label, context, n)[i] == primitives::hmac_sha1(
            key,
            label + seq![0u8] + context + seq![(i / 20) as u8],
        )[i % 20],
    decreases n,
{
    let front = kdf::prf_sha1_blocks(key, label, context, (n - 1) as nat);
    if n > 1 {
        lemma_prf_block(key, label, context, (n - 1) as nat, 0);
        if i < 20 * (n - 1) {
            lemma_prf_block(key, label, context, (n - 1) as nat, i);
        }
    } else {
        assert(front.len() == 0);
    }
    if i >= 20 * (n - 1) {
        assert(i / 20 == n - 1 && i % 20 == i - 20 * (n - 1));
    }
}

/// Octet `i` of a PRF output is octet `i mod 20` of the block numbered from
/// zero that holds it, and each block is the HMAC-SHA1 over the label, a zero
/// octet, the context and its number.
pub proof fn law_prf_octets(key: Seq<u8>, label: Seq<u8>, context: Seq<u8>, length: nat, i: int)
    requires
        forall|d: Seq<u8>| (#[trigger] primitives::hmac_sha1(key, d)).len() == 20,
        0 <= i < length,
        length <= 255 * 20,
    ensures
        kdf::prf_sha1_output(key, label, context, length)[i] == primitives::hmac_sha1(
            key,
            label + seq![0u8] + context + seq![(i / 20) as u8],
        )[i % 20],
{
    lemma_prf_block(key, label, context, kdf::block_count(length, 20), i);
}

/// The blocks of HKDF-Expand, octet by octet.
proof fn lemma_hkdf_block(prk: Seq<u8>, info: Seq<u8>, n: nat, i: int)
    requires
        forall|d: Seq<u8>| (#[trigger] primitives::hmac_sha256(prk, d)).len() == 32,
        0 <= i < 32 * n,
    ensures
        kdf::hkdf_blocks(prk, info, n).len() == 32 * n,
        kdf::hkdf_blocks(prk, info, n)[i] == kdf::hkdf_block(
            prk,
            info,
            (i / 32 + 1) as nat,
        )[i % 32],
    decreases n,
{
    let front = kdf::hkdf_blocks(prk, info, (n - 1) as nat);
    if n > 1 {
        lemma_hkdf_block(prk, info, (n - 1) as nat, 0);
        if i < 32 * (n - 1) {
            lemma_hkdf_block(prk, info, (n - 1) as nat, i);
        }
    } else {
        assert(front.len() == 0);
    }
    if i >= 32 * (n - 1) {
        assert(i / 32 == n - 1 && i % 32 == i - 32 * (n - 1));
    }
}

/// An HKDF expansion is a chain: its first 32 octets are the HMAC-SHA256 over
/// the info and one, and every 32 octets after that the one over the 32 octets
/// before them, the info and their number.
pub proof fn law_hkdf_chain(prk: Seq<u8>, info: Seq<u8>, length: nat, i: int)
    requires
        forall|d: Seq<u8>| (#[trigger] primitives::hmac_sha256(prk, d)).len() == 32,
        0 <= i < length,
        length <= 255 * 32,
    ensures
        i < 32 ==> kdf::hkdf_expand_output(prk, info, length)[i] == primitives::hmac_sha256(
            prk,
            info + seq![1u8],
        )[i],
        i >= 32 ==> ({
            let k = i / 32;
            let out = kdf::hkdf_expand_output(prk, info, length);
            out[i] == primitives::hmac_sha256(
                prk,
                out.subrange(32 * (k - 1), 32 * k) + info + seq![(k + 1) as u8],
            )[i % 32]
        }),
{
    let n = kdf::block_count(length, 32);
    let out = kdf::hkdf_expand_output(prk, info, length);
    lemma_hkdf_block(prk, info, n, i);
    let k = i / 32;
    reveal_with_fuel(kdf::hkdf_block, 2);
    if i < 32 {
        assert(Seq::<u8>::empty() + info + seq![1u8] =~= info + seq![1u8]);
    } else {
        let before = kdf::hkdf_block(prk, info, k as nat);
        assert forall|j: int| 32 * (k - 1) <= j < 32 * k implies out[j] == before[j - 32 * (k
            - 1)] by {
            lemma_hkdf_block(prk, info, n, j);
            assert(j / 32 == k - 1 && j % 32 == j - 32 * (k - 1));
        }
        assert(out.subrange(32 * (k - 1), 32 * k) =~= before);
    }
}

// ---- Fast transition ----

/// The first level of the key hierarchy as a key holder of the mobility domain
/// derives it for a station: the key in the first 32 octets, the salt of its
/// name behind it.
pub open spec fn holder_r0(
    key: Seq<u8>,
    ssid: Seq<u8>,
    mdid: Seq<u8>,
    r0kh_id: Seq<u8>,
    station: Seq<u8>,
) -> Seq<u8> {
    kdf_384(
        key,
        octets_ft_r0(),
        seq![ssid.len() as u8] + ssid + mdid + seq![r0kh_id.len() as u8] + r0kh_id + station,
    )
}

/// The name of the first level: the first 16 octets of the SHA-256 over
/// `FT-R0N` and the salt.
pub open spec fn holder_r0_name(r0: Seq<u8>) -> Seq<u8> {
    primitives::sha256(
        seq![0x46u8, 0x54, 0x2d, 0x52, 0x30, 0x4e] + r0.subrange(32, 48),
    ).subrange(0, 16)
}

/// A station and the key holders of a mobility domain derive one key for an
/// access point, and one name for it: over the names of the network, the
/// domain, the holders and the station.
pub proof fn law_ft_hierarchy_agrees(
    r1: ft::PmkR1,
    holders: KeyHolders,
    ssid: Seq<u8>,
    station: Seq<u8>,
)
    requires
        ssid.len() < 256,
        holders.r0kh_id.len() < 256,
        is_pmk_r1(r1, holders, ssid, station),
    ensures
        ({
            let r0 = holder_r0(
                holders.xxkey,
                ssid,
                holders.mdie.subrange(0, 2),
                holders.r0kh_id,
                station,
            );
            &&& r1.key@ == kdf_256(
                r0.subrange(0, 32),
                octets_ft_r1(),
                holders.r1kh_id + station,
            )
            &&& r1.name@ == primitives::sha256(
                seq![0x46u8, 0x54, 0x2d, 0x52, 0x31, 0x4e] + holder_r0_name(r0) + holders.r1kh_id
                    + station,
            ).subrange(0, 16)
        }),
{
    let mdid = holders.mdie.subrange(0, 2);
    lemma_octets_ft_r0();
    lemma_octets_ft_r1();
    law_kdf_blocks(
        holders.xxkey,
        octets_ft_r0(),
        ft::r0_context(ssid, mdid, holders.r0kh_id, station),
    );
    let r0 = ft::r0_key_data(holders.xxkey, ssid, mdid, holders.r0kh_id, station);
    law_kdf_blocks(r0.subrange(0, 32), octets_ft_r1(), holders.r1kh_id + station);
}

/// The pairwise key of a transition is the expansion of the key of the access
/// point over our nonce, its nonce, its address and ours, in this order.
pub proof fn law_ft_pairwise_key(
    r1: Seq<u8>,
    snonce: Seq<u8>,
    anonce: Seq<u8>,
    bssid: Seq<u8>,
    station: Seq<u8>,
)
    ensures
        ft::ft_ptk(r1, snonce, anonce, bssid, station) == kdf_384(
            r1,
            octets_ft_ptk(),
            snonce + anonce + bssid + station,
        ),
{
    lemma_octets_ft_ptk();
    law_kdf_blocks(r1, octets_ft_ptk(), snonce + anonce + bssid + station);
}

} // verus!
