//! Fast BSS Transition (IEEE 802.11r) key hierarchy, over-the-air.
//!
//! Implements the FT-PSK / FT-SAE (SHA-256) key derivations of 802.11-2020
//! §12.8.2 plus the FTIE MIC of §12.8.4 / §12.8.5, as exercised by the
//! over-the-air transition:
//!
//! ```text
//! R0-Key-Data = KDF-Hash-Length(XXKey, "FT-R0",
//!                 SSIDlength || SSID || MDID || R0KHlength ||
//!                 R0KH-ID || S0KH-ID)
//! PMK-R0      = L(R0-Key-Data, 0, 256)
//! PMK-R0Name-Salt = L(R0-Key-Data, 256, 128)
//! PMKR0Name   = Truncate-128(SHA256("FT-R0N" || PMK-R0Name-Salt))
//!
//! PMK-R1      = KDF-Hash-Length(PMK-R0, "FT-R1", R1KH-ID || S1KH-ID)
//! PMKR1Name   = Truncate-128(SHA256("FT-R1N" || PMKR0Name ||
//!                                    R1KH-ID || S1KH-ID))
//!
//! PTK         = KDF-Hash-Length(PMK-R1, "FT-PTK",
//!                 SNonce || ANonce || BSSID || STA-ADDR)
//! ```
//!
//! with XXKey = PMK for both FT-PSK and FT-SAE.

use vstd::prelude::*;
use vstd::string::*;

use crate::bytes;
use crate::crypto::handshake4;
use crate::crypto::kdf;
use crate::crypto::primitives;
use crate::error::WifiError;
use crate::ETH_ALEN;

verus! {

pub const FT_PTK_LEN: usize = 48;

pub const FT_KCK_LEN: usize = 16;

pub const FT_KEK_LEN: usize = 16;

pub const FT_TK_LEN: usize = 16;

pub const FT_R1KH_ID_LEN: usize = 6;

/// Result of the PMK-R0 derivation: the key and its name (PMKR0Name).
#[derive(Debug, Clone, Copy)]
pub struct PmkR0 {
    pub key: [u8; 32],
    pub name: [u8; 16],
}

/// Result of the PMK-R1 derivation: the key and its name (PMKR1Name).
#[derive(Debug, Clone, Copy)]
pub struct PmkR1 {
    pub key: [u8; 32],
    pub name: [u8; 16],
}

/// The context of the R0 key derivation. The two lengths are taken modulo
/// 256.
pub open spec fn r0_context(
    ssid: Seq<u8>,
    mdid: Seq<u8>,
    r0kh_id: Seq<u8>,
    s0kh_id: Seq<u8>,
) -> Seq<u8> {
    seq![(ssid.len() % 256) as u8] + ssid + mdid + seq![(r0kh_id.len() % 256) as u8] + r0kh_id
        + s0kh_id
}

/// The R0 key data: PMK-R0 and the salt of its name.
pub open spec fn r0_key_data(
    xxkey: Seq<u8>,
    ssid: Seq<u8>,
    mdid: Seq<u8>,
    r0kh_id: Seq<u8>,
    s0kh_id: Seq<u8>,
) -> Seq<u8> {
    kdf::kdf_output(xxkey, "FT-R0".spec_bytes(), r0_context(ssid, mdid, r0kh_id, s0kh_id), 48)
}

/// The octets of `FT-R0N`.
pub open spec fn ft_r0n() -> Seq<u8> {
    seq![0x46u8, 0x54, 0x2d, 0x52, 0x30, 0x4e]
}

/// The octets of `FT-R1N`.
pub open spec fn ft_r1n() -> Seq<u8> {
    seq![0x46u8, 0x54, 0x2d, 0x52, 0x31, 0x4e]
}

/// The first 16 octets of a SHA-256 digest.
pub open spec fn sha256_128(data: Seq<u8>) -> Seq<u8> {
    primitives::sha256(data).subrange(0, 16)
}

/// The pairwise transient key of the FT hierarchy.
pub open spec fn ft_ptk(
    pmk_r1: Seq<u8>,
    snonce: Seq<u8>,
    anonce: Seq<u8>,
    bssid: Seq<u8>,
    sta_addr: Seq<u8>,
) -> Seq<u8> {
    kdf::kdf_output(pmk_r1, "FT-PTK".spec_bytes(), snonce + anonce + bssid + sta_addr, 48)
}

/// What the FTIE MIC covers.
pub open spec fn ft_mic_data(
    sta_addr: Seq<u8>,
    ap_addr: Seq<u8>,
    transaction_seqnum: u8,
    elements: Seq<u8>,
) -> Seq<u8> {
    sta_addr + ap_addr + seq![transaction_seqnum] + elements
}

/// The first 16 octets of the SHA-256 digest of `data`.
fn truncated_sha256(data: &[u8]) -> (r: [u8; 16])
    ensures
        r@ == sha256_128(data@),
{
    let digest = primitives::digest_sha256(data);
    bytes::array16(digest.as_slice(), 0)
}

/// PMK-R0 = L(KDF-SHA256(XXKey, "FT-R0", SSIDlength || SSID || MDID ||
/// R0KHlength || R0KH-ID || S0KH-ID), 0, 256); PMKR0Name comes from the salt
/// that follows it (802.11-2020 §12.8.2.1).
///
/// `xxkey` is the PMK (SAE or PSK); `s0kh_id` is the STA's own MAC address
/// (the supplicant-side R0 key holder).
pub fn derive_pmk_r0(
    xxkey: &[u8; 32],
    ssid: &str,
    mdid: [u8; 2],
    r0kh_id: &[u8],
    s0kh_id: [u8; ETH_ALEN],
) -> (r: PmkR0)
    ensures
        ({
            let data = r0_key_data(xxkey@, ssid.spec_bytes(), mdid@, r0kh_id@, s0kh_id@);
            &&& r.key@ == data.subrange(0, 32)
            &&& r.name@ == sha256_128(ft_r0n() + data.subrange(32, 48))
        }),
{
    let ssid_bytes = ssid.as_bytes();
    let mut context: Vec<u8> = Vec::new();
    context.push((ssid_bytes.len() % 256) as u8);
    bytes::append(&mut context, ssid_bytes);
    bytes::append(&mut context, &mdid);
    context.push((r0kh_id.len() % 256) as u8);
    bytes::append(&mut context, r0kh_id);
    bytes::append(&mut context, &s0kh_id);
    assert(context@ =~= r0_context(ssid.spec_bytes(), mdid@, r0kh_id@, s0kh_id@));
    let data = kdf::kdf(xxkey, "FT-R0", context.as_slice(), 48);
    let key = bytes::array32(data.as_slice(), 0);
    let salt = bytes::array16(data.as_slice(), 32);
    let label: [u8; 6] = [0x46, 0x54, 0x2d, 0x52, 0x30, 0x4e];
    let mut hash_input: Vec<u8> = Vec::new();
    bytes::append(&mut hash_input, &label);
    bytes::append(&mut hash_input, &salt);
    assert(hash_input@ =~= ft_r0n() + data@.subrange(32, 48));
    PmkR0 { key, name: truncated_sha256(hash_input.as_slice()) }
}

/// PMK-R1 = KDF-SHA256(PMK-R0, "FT-R1", R1KH-ID || S1KH-ID); PMKR1Name =
/// Truncate-128(SHA256("FT-R1N" || PMKR0Name || R1KH-ID || S1KH-ID))
/// (802.11-2020 §12.8.2.2). `s1kh_id` is the STA MAC address.
pub fn derive_pmk_r1(
    pmk_r0: &PmkR0,
    r1kh_id: [u8; FT_R1KH_ID_LEN],
    s1kh_id: [u8; ETH_ALEN],
) -> (r: PmkR1)
    ensures
        r.key@ == kdf::kdf_output(
            pmk_r0.key@,
            "FT-R1".spec_bytes(),
            r1kh_id@ + s1kh_id@,
            32,
        ),
        r.name@ == sha256_128(ft_r1n() + pmk_r0.name@ + r1kh_id@ + s1kh_id@),
{
    let mut context: Vec<u8> = Vec::new();
    bytes::append(&mut context, &r1kh_id);
    bytes::append(&mut context, &s1kh_id);
    assert(context@ =~= r1kh_id@ + s1kh_id@);
    let data = kdf::kdf(&pmk_r0.key, "FT-R1", context.as_slice(), 32);
    let key = bytes::array32(data.as_slice(), 0);
    assert(key@ =~= data@);
    let label: [u8; 6] = [0x46, 0x54, 0x2d, 0x52, 0x31, 0x4e];
    let mut hash_input: Vec<u8> = Vec::new();
    bytes::append(&mut hash_input, &label);
    bytes::append(&mut hash_input, &pmk_r0.name);
    bytes::append(&mut hash_input, &r1kh_id);
    bytes::append(&mut hash_input, &s1kh_id);
    assert(hash_input@ =~= ft_r1n() + pmk_r0.name@ + r1kh_id@ + s1kh_id@);
    PmkR1 { key, name: truncated_sha256(hash_input.as_slice()) }
}

/// PTK = KDF-SHA256(PMK-R1, "FT-PTK", SNonce || ANonce || BSSID || STA-ADDR)
/// (802.11-2020 §12.8.2.3), 48 bytes: KCK (16) || KEK (16) || TK (16) for
/// CCMP-128 pairwise.
pub fn derive_ft_ptk(
    pmk_r1: &PmkR1,
    snonce: &[u8; 32],
    anonce: &[u8; 32],
    bssid: [u8; ETH_ALEN],
    sta_addr: [u8; ETH_ALEN],
) -> (r: [u8; FT_PTK_LEN])
    ensures
        r@ == ft_ptk(pmk_r1.key@, snonce@, anonce@, bssid@, sta_addr@),
{
    let mut context: Vec<u8> = Vec::new();
    bytes::append(&mut context, snonce);
    bytes::append(&mut context, anonce);
    bytes::append(&mut context, &bssid);
    bytes::append(&mut context, &sta_addr);
    assert(context@ =~= snonce@ + anonce@ + bssid@ + sta_addr@);
    let data = kdf::kdf(&pmk_r1.key, "FT-PTK", context.as_slice(), FT_PTK_LEN);
    let r = bytes::array48(data.as_slice(), 0);
    assert(r@ =~= data@);
    r
}

/// FTIE MIC over the FT protocol elements (802.11-2020 §12.8.4):
/// AES-128-CMAC(KCK, STA-ADDR || AP-ADDR || TransactionSeqNum || [RSNE] ||
/// MDIE || FTIE-with-MIC-zeroed || [RSNXE]).
///
/// `elements` is the concatenation of RSNE (optional), MDIE, the FTIE with
/// its 16-byte MIC field zeroed, and RSNXE (optional) - each element
/// including its 2-byte IE header, in that order.
pub fn ft_mic(
    kck: &[u8; FT_KCK_LEN],
    sta_addr: [u8; ETH_ALEN],
    ap_addr: [u8; ETH_ALEN],
    transaction_seqnum: u8,
    elements: &[u8],
) -> (r: Result<[u8; 16], WifiError>)
    ensures
        r matches Ok(mic) && mic@ == primitives::aes_128_cmac(
            kck@,
            ft_mic_data(sta_addr@, ap_addr@, transaction_seqnum, elements@),
        ),
{
    let mut data: Vec<u8> = Vec::new();
    bytes::append(&mut data, &sta_addr);
    bytes::append(&mut data, &ap_addr);
    data.push(transaction_seqnum);
    bytes::append(&mut data, elements);
    assert(data@ =~= ft_mic_data(sta_addr@, ap_addr@, transaction_seqnum, elements@));
    handshake4::aes_cmac(kck, data.as_slice())
}

} // verus!
