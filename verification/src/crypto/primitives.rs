//! The cryptographic functions taken from `aws_lc_rs`: message
//! authentication codes, hashes, key wrapping and random bytes.

use vstd::prelude::*;

use aws_lc_rs::key_wrap::KeyWrap;
use aws_lc_rs::rand::SecureRandom;

verus! {

/// What `hmac::sign` returns with the HMAC-SHA256 algorithm.
pub uninterp spec fn hmac_sha256(key: Seq<u8>, data: Seq<u8>) -> Seq<u8>;

/// What `hmac::sign` returns with the HMAC-SHA1 algorithm.
pub uninterp spec fn hmac_sha1(key: Seq<u8>, data: Seq<u8>) -> Seq<u8>;

/// What `digest::digest` returns with the SHA-256 algorithm.
pub uninterp spec fn sha256(data: Seq<u8>) -> Seq<u8>;

/// What `pbkdf2::derive` writes with HMAC-SHA1 into an output of `len`
/// octets.
pub uninterp spec fn pbkdf2_sha1(
    iterations: u32,
    salt: Seq<u8>,
    secret: Seq<u8>,
    len: nat,
) -> Seq<u8>;

/// The tag that `cmac::sign` computes with AES-128.
pub uninterp spec fn aes_128_cmac(key: Seq<u8>, data: Seq<u8>) -> Seq<u8>;

/// The plaintext that `KeyWrap::unwrap` recovers with a 128-bit AES key
/// encryption key; none where it refuses the ciphertext.
pub uninterp spec fn aes_128_unwrapped(kek: Seq<u8>, wrapped: Seq<u8>) -> Option<Seq<u8>>;

/// `aws_lc_rs::hmac::sign` with a `Key` of `HMAC_SHA256`: a 32-octet tag
/// that is a function of the key and the data.
#[verifier::external_body]
pub(crate) fn sign_hmac_sha256(key: &[u8], data: &[u8]) -> (tag: Vec<u8>)
    ensures
        tag@ == hmac_sha256(key@, data@),
        tag@.len() == 32,
{
    let key = aws_lc_rs::hmac::Key::new(aws_lc_rs::hmac::HMAC_SHA256, key);
    aws_lc_rs::hmac::sign(&key, data).as_ref().to_vec()
}

/// `aws_lc_rs::hmac::sign` with a `Key` of `HMAC_SHA1_FOR_LEGACY_USE_ONLY`:
/// a 20-octet tag that is a function of the key and the data.
#[verifier::external_body]
pub(crate) fn sign_hmac_sha1(key: &[u8], data: &[u8]) -> (tag: Vec<u8>)
    ensures
        tag@ == hmac_sha1(key@, data@),
        tag@.len() == 20,
{
    let key = aws_lc_rs::hmac::Key::new(aws_lc_rs::hmac::HMAC_SHA1_FOR_LEGACY_USE_ONLY, key);
    aws_lc_rs::hmac::sign(&key, data).as_ref().to_vec()
}

/// `aws_lc_rs::digest::digest` with `SHA256`: a 32-octet digest that is a
/// function of the data.
#[verifier::external_body]
pub(crate) fn digest_sha256(data: &[u8]) -> (digest: Vec<u8>)
    ensures
        digest@ == sha256(data@),
        digest@.len() == 32,
{
    aws_lc_rs::digest::digest(&aws_lc_rs::digest::SHA256, data).as_ref().to_vec()
}

/// `aws_lc_rs::pbkdf2::derive` with `PBKDF2_HMAC_SHA1`, which fills the
/// 32-octet output from the iteration count, the salt and the secret alone.
#[verifier::external_body]
pub(crate) fn derive_pbkdf2_sha1(iterations: u32, salt: &[u8], secret: &[u8]) -> (out: [u8; 32])
    requires
        iterations > 0,
    ensures
        out@ == pbkdf2_sha1(iterations, salt@, secret@, 32),
{
    let mut out = [0u8; 32];
    let iterations = std::num::NonZeroU32::new(iterations).unwrap();
    let algorithm = aws_lc_rs::pbkdf2::PBKDF2_HMAC_SHA1;
    aws_lc_rs::pbkdf2::derive(algorithm, iterations, salt, secret, &mut out);
    out
}

/// `aws_lc_rs::cmac::sign` with a `Key` of `AES_128`: a 16-octet tag that is a
/// function of the key and the data. A key of 16 octets is the right length,
/// and with it every data has a tag; only for want of memory is there none,
/// and then this does not return.
#[verifier::external_body]
pub(crate) fn sign_aes_128_cmac(key: &[u8; 16], data: &[u8]) -> (tag: [u8; 16])
    ensures
        tag@ == aes_128_cmac(key@, data@),
{
    let key = aws_lc_rs::cmac::Key::new(aws_lc_rs::cmac::AES_128, key).unwrap();
    aws_lc_rs::cmac::sign(&key, data).unwrap().as_ref().try_into().unwrap()
}

/// `aws_lc_rs::key_wrap::KeyWrap::unwrap` with an `AesKek` of `AES_128` and
/// an output of `plain_len` octets, 8 fewer than the ciphertext has: the
/// recovered plaintext fills the output, or the ciphertext is refused. Either
/// is a function of the key and the ciphertext.
#[verifier::external_body]
pub(crate) fn unwrap_aes_128(kek: &[u8; 16], wrapped: &[u8], plain_len: usize) -> (r: Option<
    Vec<u8>,
>)
    requires
        plain_len + 8 == wrapped@.len(),
    ensures
        match r {
            Some(plain) => aes_128_unwrapped(kek@, wrapped@) == Some(plain@),
            None => aes_128_unwrapped(kek@, wrapped@) is None,
        },
        r matches Some(plain) ==> plain@.len() + 8 == wrapped@.len(),
{
    let mut out = vec![0u8; plain_len];
    let kek = aws_lc_rs::key_wrap::AesKek::new(&aws_lc_rs::key_wrap::AES_128, kek).ok()?;
    kek.unwrap(wrapped, &mut out).ok()?;
    Some(out)
}

/// `aws_lc_rs::rand::SecureRandom::fill` of a `SystemRandom`, for 32 random
/// octets; none where the system gives no randomness.
#[verifier::external_body]
pub(crate) fn random_32() -> (r: Option<[u8; 32]>) {
    let mut out = [0u8; 32];
    aws_lc_rs::rand::SystemRandom::new().fill(&mut out).ok()?;
    Some(out)
}

/// `aws_lc_rs::constant_time::verify_slices_are_equal`: whether two slices
/// hold the same octets.
#[verifier::external_body]
pub(crate) fn constant_time_same(a: &[u8], b: &[u8]) -> (r: bool)
    ensures
        r == (a@ == b@),
{
    aws_lc_rs::constant_time::verify_slices_are_equal(a, b).is_ok()
}

} // verus!
