//! KDF/PRF functions as defined in IEEE 802.11-2020. Used by SAE (key
//! derivation, confirm) and the 4-way handshake.

use vstd::prelude::*;
use vstd::string::*;

use crate::bytes;
use crate::crypto::primitives;

verus! {

/// The first `n` output blocks of the 802.11 KDF, for an output of `bits`
/// bits.
pub open spec fn kdf_blocks(
    key: Seq<u8>,
    label: Seq<u8>,
    context: Seq<u8>,
    bits: u16,
    n: nat,
) -> Seq<u8>
    decreases n,
{
    if n == 0 {
        Seq::empty()
    } else {
        kdf_blocks(key, label, context, bits, (n - 1) as nat) + primitives::hmac_sha256(
            key,
            bytes::le16_bytes(n as u16) + label + context + bytes::le16_bytes(bits),
        )
    }
}

/// How many blocks of `block` octets cover `length` octets.
pub open spec fn block_count(length: nat, block: nat) -> nat {
    ((length + block - 1) / block as int) as nat
}

/// The output of the 802.11 KDF (KDF-Hash-Length with SHA-256).
pub open spec fn kdf_output(
    key: Seq<u8>,
    label: Seq<u8>,
    context: Seq<u8>,
    length: nat,
) -> Seq<u8> {
    kdf_blocks(
        key,
        label,
        context,
        ((length * 8) % 0x1_0000) as u16,
        block_count(length, 32),
    ).subrange(0, length as int)
}

/// The first `n` output blocks of the 802.11 PRF with HMAC-SHA1.
pub open spec fn prf_sha1_blocks(
    key: Seq<u8>,
    label: Seq<u8>,
    context: Seq<u8>,
    n: nat,
) -> Seq<u8>
    decreases n,
{
    if n == 0 {
        Seq::empty()
    } else {
        prf_sha1_blocks(key, label, context, (n - 1) as nat) + primitives::hmac_sha1(
            key,
            label + seq![0u8] + context + seq![(n - 1) as u8],
        )
    }
}

/// The output of the 802.11 PRF with HMAC-SHA1.
pub open spec fn prf_sha1_output(
    key: Seq<u8>,
    label: Seq<u8>,
    context: Seq<u8>,
    length: nat,
) -> Seq<u8> {
    prf_sha1_blocks(key, label, context, block_count(length, 20)).subrange(0, length as int)
}

/// Block `n` of HKDF-Expand; block 0 is empty.
pub open spec fn hkdf_block(prk: Seq<u8>, info: Seq<u8>, n: nat) -> Seq<u8>
    decreases n,
{
    if n == 0 {
        Seq::empty()
    } else {
        primitives::hmac_sha256(
            prk,
            hkdf_block(prk, info, (n - 1) as nat) + info + seq![n as u8],
        )
    }
}

/// The first `n` blocks of HKDF-Expand, joined.
pub open spec fn hkdf_blocks(prk: Seq<u8>, info: Seq<u8>, n: nat) -> Seq<u8>
    decreases n,
{
    if n == 0 {
        Seq::empty()
    } else {
        hkdf_blocks(prk, info, (n - 1) as nat) + hkdf_block(prk, info, n)
    }
}

/// The output of HKDF-Expand with HMAC-SHA256.
pub open spec fn hkdf_expand_output(prk: Seq<u8>, info: Seq<u8>, length: nat) -> Seq<u8> {
    hkdf_blocks(prk, info, block_count(length, 32)).subrange(0, length as int)
}

/// What an SAE confirm message authenticates.
pub open spec fn confirm_data(
    send_confirm: u16,
    scalar1: Seq<u8>,
    element1: Seq<u8>,
    scalar2: Seq<u8>,
    element2: Seq<u8>,
) -> Seq<u8> {
    bytes::le16_bytes(send_confirm) + scalar1 + element1 + scalar2 + element2
}

/// What a PMKID is computed over.
pub open spec fn pmk_name_data(aa: Seq<u8>, spa: Seq<u8>) -> Seq<u8> {
    seq![0x50u8, 0x4d, 0x4b, 0x20, 0x4e, 0x61, 0x6d, 0x65] + aa + spa
}

/// IEEE 802.11 KDF-Hash-Length using HMAC-SHA256 (sha256_prf_bits,
/// 802.11-2020 §12.7.1.7.2).
///
/// `Result = HMAC-SHA256(K, counter_le16 || label || context || length_le16)`
/// concatenated for counter = 1, 2, ... until `length` bytes are produced.
/// Note: counter and length are 16-bit little-endian and there is NO 0x00
/// separator between label and context. The length is in bits, modulo 65536.
pub fn kdf(key: &[u8], label: &str, context: &[u8], length: usize) -> (result: Vec<u8>)
    requires
        length <= 65534 * 32,
    ensures
        result@ == kdf_output(key@, label.spec_bytes(), context@, length as nat),
        result@.len() == length,
{
    let label_bytes = label.as_bytes();
    let len_bits: u16 = ((length * 8) % 0x1_0000) as u16;
    let mut result: Vec<u8> = Vec::new();
    let mut counter: u16 = 1;
    while result.len() < length
        invariant
            length <= 65534 * 32,
            label_bytes@ == label.spec_bytes(),
            1 <= counter <= 65535,
            len_bits == ((length * 8) % 0x1_0000) as u16,
            result@.len() == 32 * (counter - 1),
            counter > 1 ==> 32 * (counter - 2) < length,
            result@ == kdf_blocks(
                key@,
                label.spec_bytes(),
                context@,
                len_bits,
                (counter - 1) as nat,
            ),
        decreases length + 32 - result@.len(),
    {
        let mut data: Vec<u8> = Vec::new();
        bytes::push_le16(&mut data, counter);
        bytes::append(&mut data, label_bytes);
        bytes::append(&mut data, context);
        bytes::push_le16(&mut data, len_bits);
        assert(data@ =~= bytes::le16_bytes(counter) + label.spec_bytes() + context@
            + bytes::le16_bytes(len_bits));
        let tag = primitives::sign_hmac_sha256(key, data.as_slice());
        bytes::append(&mut result, tag.as_slice());
        counter = counter + 1;
    }
    assert((counter - 1) as nat == block_count(length as nat, 32)) by {
        let n = counter - 1;
        assert(32 * n >= length);
        assert(n > 0 ==> 32 * (n - 1) < length);
        assert(n == (length + 31) / 32);
    }
    result.truncate(length);
    result
}

/// HKDF-Extract (RFC 5869): `PRK = HMAC-Hash(salt, ikm)`.
pub fn hkdf_extract_sha256(salt: &[u8], ikm: &[u8]) -> (r: [u8; 32])
    ensures
        r@ == primitives::hmac_sha256(salt@, ikm@),
{
    let tag = primitives::sign_hmac_sha256(salt, ikm);
    let r = bytes::array32(tag.as_slice(), 0);
    assert(r@ =~= tag@);
    r
}

/// SAE confirm CN function (802.11-2020 §12.4.5.5).
/// `CN(KCK, send_confirm, scalar1, element1, scalar2, element2) =`
/// `HMAC-SHA256(KCK, send_confirm_le16 || scalar1 || element1 ||`
/// `scalar2 || element2)`
pub fn sae_confirm(
    kck: &[u8],
    send_confirm: u16,
    scalar1: &[u8],
    element1: &[u8],
    scalar2: &[u8],
    element2: &[u8],
) -> (r: Vec<u8>)
    ensures
        r@ == primitives::hmac_sha256(
            kck@,
            confirm_data(send_confirm, scalar1@, element1@, scalar2@, element2@),
        ),
        r@.len() == 32,
{
    let mut data: Vec<u8> = Vec::new();
    bytes::push_le16(&mut data, send_confirm);
    bytes::append(&mut data, scalar1);
    bytes::append(&mut data, element1);
    bytes::append(&mut data, scalar2);
    bytes::append(&mut data, element2);
    assert(data@ =~= confirm_data(send_confirm, scalar1@, element1@, scalar2@, element2@));
    primitives::sign_hmac_sha256(kck, data.as_slice())
}

/// HKDF-Expand (RFC 5869) using HMAC-SHA256.
/// Fills `okm` with OKM = HKDF-Expand(prk, info, okm.len()).
pub fn hkdf_expand(prk: &[u8], info: &[u8], okm: &mut [u8])
    requires
        old(okm)@.len() <= 254 * 32,
    ensures
        final(okm)@ == hkdf_expand_output(prk@, info@, old(okm)@.len()),
        final(okm)@.len() == old(okm)@.len(),
{
    let length: usize = okm.len();
    let mut prev: Vec<u8> = Vec::new();
    let mut filled: usize = 0;
    let mut i: u8 = 1;
    let ghost mut blocks: Seq<u8> = Seq::empty();
    while filled < length
        invariant
            length <= 254 * 32,
            okm@.len() == length,
            1 <= i <= 255,
            blocks == hkdf_blocks(prk@, info@, (i - 1) as nat),
            blocks.len() == 32 * (i - 1),
            prev@ == hkdf_block(prk@, info@, (i - 1) as nat),
            filled <= length,
            filled == if blocks.len() <= length {
                blocks.len() as int
            } else {
                length as int
            },
            i > 1 ==> 32 * (i - 2) < length,
            forall|j: int| 0 <= j < filled ==> okm@[j] == blocks[j],
        decreases length - filled,
    {
        let mut data: Vec<u8> = Vec::new();
        bytes::append(&mut data, prev.as_slice());
        bytes::append(&mut data, info);
        data.push(i);
        assert(data@ =~= hkdf_block(prk@, info@, (i - 1) as nat) + info@ + seq![i]);
        prev = primitives::sign_hmac_sha256(prk, data.as_slice());
        let to_copy: usize = if length - filled < 32 {
            length - filled
        } else {
            32
        };
        let ghost before = blocks;
        proof {
            blocks = before + prev@;
        }
        let mut k: usize = 0;
        while k < to_copy
            invariant
                k <= to_copy <= 32,
                prev@.len() == 32,
                filled + to_copy <= length,
                okm@.len() == length,
                before.len() == filled,
                blocks == before + prev@,
                forall|j: int| 0 <= j < filled + k ==> okm@[j] == blocks[j],
            decreases to_copy - k,
        {
            okm[filled + k] = prev[k];
            k = k + 1;
        }
        filled = filled + to_copy;
        i = i + 1;
    }
    proof {
        let n = i - 1;
        assert(32 * n >= length);
        assert(n > 0 ==> 32 * (n - 1) < length);
        assert(n == (length + 31) / 32);
        assert(okm@ =~= blocks.subrange(0, length as int));
    }
}

/// HMAC-SHA256 MIC for OWE 4-way handshake:
/// `Truncate-128(HMAC-SHA256(KCK, data))`.
pub fn hmac_sha256_mic(kck: &[u8], data: &[u8]) -> (r: [u8; 16])
    ensures
        r@ == primitives::hmac_sha256(kck@, data@).subrange(0, 16),
{
    let tag = primitives::sign_hmac_sha256(kck, data);
    bytes::array16(tag.as_slice(), 0)
}

/// IEEE 802.11 PRF using HMAC-SHA1 (802.11-2020 §12.7.1.2).
/// Used by WPA2-PSK for PTK derivation.
///
/// `Result = HMAC-SHA1(K, label || 0x00 || context || i)`
/// concatenated for i = 0, 1, ... until `length` bytes are produced.
pub fn prf_sha1(key: &[u8], label: &str, context: &[u8], length: usize) -> (result: Vec<u8>)
    requires
        length <= 255 * 20,
    ensures
        result@ == prf_sha1_output(key@, label.spec_bytes(), context@, length as nat),
        result@.len() == length,
{
    let label_bytes = label.as_bytes();
    let mut result: Vec<u8> = Vec::new();
    let mut counter: u8 = 0;
    while result.len() < length
        invariant
            length <= 255 * 20,
            label_bytes@ == label.spec_bytes(),
            counter <= 255,
            result@.len() == 20 * counter,
            counter > 0 ==> 20 * (counter - 1) < length,
            result@ == prf_sha1_blocks(key@, label.spec_bytes(), context@, counter as nat),
        decreases length + 20 - result@.len(),
    {
        let mut data: Vec<u8> = Vec::new();
        bytes::append(&mut data, label_bytes);
        data.push(0);
        bytes::append(&mut data, context);
        data.push(counter);
        assert(data@ =~= label.spec_bytes() + seq![0u8] + context@ + seq![counter]);
        let tag = primitives::sign_hmac_sha1(key, data.as_slice());
        bytes::append(&mut result, tag.as_slice());
        counter = counter + 1;
    }
    assert(counter as nat == block_count(length as nat, 20)) by {
        let n = counter as int;
        assert(20 * n >= length);
        assert(n > 0 ==> 20 * (n - 1) < length);
        assert(n == (length + 19) / 20);
    }
    result.truncate(length);
    result
}

/// HMAC-SHA1 MIC for WPA2-PSK 4-way handshake:
/// `Truncate-128(HMAC-SHA1(KCK, data))`.
pub fn hmac_sha1_mic(kck: &[u8], data: &[u8]) -> (r: [u8; 16])
    ensures
        r@ == primitives::hmac_sha1(kck@, data@).subrange(0, 16),
{
    let tag = primitives::sign_hmac_sha1(kck, data);
    bytes::array16(tag.as_slice(), 0)
}

/// WPA2-PSK PMK derivation: PBKDF2(HMAC-SHA1, password, SSID, 4096, 256).
pub fn pbkdf2_pmk(password: &str, ssid: &str) -> (pmk: [u8; 32])
    ensures
        pmk@ == primitives::pbkdf2_sha1(4096, ssid.spec_bytes(), password.spec_bytes(), 32),
{
    primitives::derive_pbkdf2_sha1(4096, ssid.as_bytes(), password.as_bytes())
}

/// The data a PMKID is computed over: `"PMK Name" || AA || SPA`.
fn pmkid_input(aa: &[u8; 6], spa: &[u8; 6]) -> (data: Vec<u8>)
    ensures
        data@ == pmk_name_data(aa@, spa@),
{
    let name: [u8; 8] = [0x50, 0x4d, 0x4b, 0x20, 0x4e, 0x61, 0x6d, 0x65];
    let mut data: Vec<u8> = Vec::new();
    bytes::append(&mut data, &name);
    bytes::append(&mut data, aa);
    bytes::append(&mut data, spa);
    assert(data@ =~= pmk_name_data(aa@, spa@));
    data
}

/// PMKID for SHA-256 based AKMs (PSK-SHA256, 802.1X-SHA256, ...),
/// 802.11-2020 §9.4.2.25.3 / §12.7.1.5:
/// `PMKID = Truncate-128(HMAC-SHA256(PMK, "PMK Name" || AA || SPA))`
/// with AA = authenticator address (BSSID), SPA = supplicant address.
pub fn pmkid_sha256(pmk: &[u8], aa: &[u8; 6], spa: &[u8; 6]) -> (r: [u8; 16])
    ensures
        r@ == primitives::hmac_sha256(pmk@, pmk_name_data(aa@, spa@)).subrange(0, 16),
{
    let data = pmkid_input(aa, spa);
    hmac_sha256_mic(pmk, data.as_slice())
}

/// PMKID for the legacy AKMs (WPA2-PSK / 802.1X, AKM 00-0F-AC:1/2):
/// `PMKID = Truncate-128(HMAC-SHA1(PMK, "PMK Name" || AA || SPA))`.
pub fn pmkid_sha1(pmk: &[u8], aa: &[u8; 6], spa: &[u8; 6]) -> (r: [u8; 16])
    ensures
        r@ == primitives::hmac_sha1(pmk@, pmk_name_data(aa@, spa@)).subrange(0, 16),
{
    let data = pmkid_input(aa, spa);
    hmac_sha1_mic(pmk, data.as_slice())
}

} // verus!
