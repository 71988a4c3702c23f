//! Operating Channel Validation (OCV) for non-FT AKMs.
//!
//! Basic supplicant support: when enabled, the STA advertises the OCVC RSN
//! capability, sends its Operating Channel Information (OCI) as a KDE in
//! 4-way Message 2, and verifies the AP's OCI in Message 3 and group-key
//! handshakes against the BSS frequency. Channel width and secondary channel
//! are not looked at (a 20 MHz STA assumption).
//!
//! The OCI codec itself lives in `wl_nl80211`; this module keeps only the
//! policy check on top of it. An OCI is held as its three octets: operating
//! class, channel, segment.

use vstd::prelude::*;
use vstd::string::*;

use crate::error::{ErrorKind, WifiError};
use crate::ieee80211::tlv;
use crate::text;

use wl_nl80211::Ieee80211Oci;

verus! {

/// What Operating Channel Validation works with: our own OCI and the BSS
/// frequency.
#[derive(Debug, Clone, Copy)]
pub struct Ocv {
    pub oci: [u8; 3],
    pub freq_mhz: u32,
}

/// The KDE that carries an OCI: a vendor element of OUI 00-0F-AC and type 13.
pub open spec fn oci_kde(oci: Seq<u8>) -> Seq<u8> {
    seq![0xddu8, 7, 0x00, 0x0f, 0xac, 13] + oci
}

/// Whether an element is an OCI KDE: a vendor element of OUI 00-0F-AC and
/// type 13 that holds three octets.
pub open spec fn is_oci_kde(e: tlv::Element) -> bool {
    &&& e.id == 0xdd
    &&& e.body.len() == 7
    &&& e.body.subrange(0, 4) == seq![0x00u8, 0x0f, 0xac, 13]
}

/// The OCI of the first OCI KDE among elements.
pub open spec fn first_oci(list: Seq<tlv::Element>) -> Option<Seq<u8>>
    decreases list.len(),
{
    if list.len() == 0 {
        None
    } else if is_oci_kde(list[0]) {
        Some(list[0].body.subrange(4, 7))
    } else {
        first_oci(list.drop_first())
    }
}

/// The channel of a 5 GHz frequency, as an octet.
pub open spec fn channel_5ghz(freq_mhz: u32) -> nat {
    ((freq_mhz - 5000) / 5 % 256) as nat
}

/// The operating class of a 5 GHz channel.
pub open spec fn class_5ghz(channel: nat) -> Option<u8> {
    if 36 <= channel <= 48 {
        Some(115)
    } else if 52 <= channel <= 64 {
        Some(116)
    } else if 100 <= channel <= 144 {
        Some(117)
    } else if 149 <= channel <= 177 {
        Some(118)
    } else {
        None
    }
}

/// The OCI of the 20 MHz channel at a frequency, where it has one.
pub open spec fn oci_of_freq(freq_mhz: u32) -> Option<Seq<u8>> {
    if 2412 <= freq_mhz <= 2472 && (freq_mhz - 2407) % 5 == 0 {
        Some(seq![81u8, ((freq_mhz - 2407) / 5) as u8, 0])
    } else if freq_mhz >= 5000 && (freq_mhz - 5000) % 5 == 0 {
        match class_5ghz(channel_5ghz(freq_mhz)) {
            Some(class) => Some(seq![class, channel_5ghz(freq_mhz) as u8, 0]),
            None => None,
        }
    } else {
        None
    }
}

/// `wl_nl80211::parse_oci_kde`: the octets of the first OCI KDE in key data.
#[verifier::external_body]
fn parse_oci(key_data: &[u8]) -> (r: Option<[u8; 3]>)
    ensures
        match r {
            Some(oci) => first_oci(tlv::elements_from(key_data@, 0)) == Some(oci@),
            None => first_oci(tlv::elements_from(key_data@, 0)) is None,
        },
{
    wl_nl80211::parse_oci_kde(key_data).map(|oci| oci.to_bytes())
}

/// `wl_nl80211::Ieee80211Oci::matches_freq`: whether the channel of an OCI is
/// that of the frequency.
#[verifier::external_body]
fn matches_freq(oci: &[u8; 3], freq_mhz: u32) -> (r: bool)
    ensures
        r == (oci_of_freq(freq_mhz) matches Some(expected) && oci@[1] == expected[1]),
{
    Ieee80211Oci::from(*oci).matches_freq(freq_mhz)
}

/// `wl_nl80211::Ieee80211Oci::from_freq`: the OCI of a frequency. Frequencies
/// without a mapping (6 GHz, 2.4 GHz channel 14) give none.
#[verifier::external_body]
pub(crate) fn oci_from_freq(freq_mhz: u32) -> (r: Option<[u8; 3]>)
    ensures
        match r {
            Some(oci) => oci_of_freq(freq_mhz) == Some(oci@),
            None => oci_of_freq(freq_mhz) is None,
        },
{
    Ieee80211Oci::from_freq(freq_mhz).map(|oci| oci.to_bytes())
}

/// `wl_nl80211::build_oci_kde`: the KDE that carries an OCI.
#[verifier::external_body]
pub(crate) fn build_oci_kde(oci: &[u8; 3]) -> (r: Vec<u8>)
    ensures
        r@ == oci_kde(oci@),
{
    wl_nl80211::build_oci_kde(Ieee80211Oci::from(*oci))
}

/// Why key data fails the channel check at a frequency, where it does.
pub open spec fn oci_error(key_data: Seq<u8>, freq_mhz: u32) -> Option<Seq<char>> {
    match first_oci(tlv::elements_from(key_data, 0)) {
        None => Some("OCV: AP Message 3 carries no OCI KDE"@),
        Some(oci) => if oci_of_freq(freq_mhz) matches Some(expected) && oci[1] == expected[1] {
            None
        } else {
            Some(
                "OCV: AP OCI "@ + text::hex_list(oci) + " does not match freq "@ + text::dec(
                    freq_mhz as nat,
                ),
            )
        },
    }
}

/// Validate an OCI KDE against the expected frequency; returns an error when
/// the OCI is missing or mismatched.
pub fn verify_oci(key_data: &[u8], freq_mhz: u32) -> (r: Result<(), WifiError>)
    ensures
        match oci_error(key_data@, freq_mhz) {
            None => r is Ok,
            Some(msg) => r matches Err(e) && e.is(ErrorKind::HandshakeFailed, msg),
        },
{
    let oci = match parse_oci(key_data) {
        Some(oci) => oci,
        None => {
            return Err(
                WifiError::new(ErrorKind::HandshakeFailed, "OCV: AP Message 3 carries no OCI KDE"),
            );
        },
    };
    if !matches_freq(&oci, freq_mhz) {
        let mut msg = text::text("OCV: AP OCI ");
        text::push_hex_list(&mut msg, &oci);
        msg.append(" does not match freq ");
        text::push_dec(&mut msg, freq_mhz as u64);
        return Err(WifiError::new(ErrorKind::HandshakeFailed, msg.as_str()));
    }
    Ok(())
}

/// Key data that holds nothing but the OCI KDE of a frequency passes the
/// channel check at that frequency.
pub proof fn law_own_oci_passes(freq_mhz: u32)
    requires
        oci_of_freq(freq_mhz) is Some,
    ensures
        oci_error(oci_kde(oci_of_freq(freq_mhz)->0), freq_mhz) is None,
{
    let oci = oci_of_freq(freq_mhz)->0;
    let s = oci_kde(oci);
    assert(s.len() == 9);
    tlv::lemma_single(s, 0);
    let e = tlv::element_at(s, 0);
    assert(e.body.subrange(0, 4) =~= seq![0x00u8, 0x0f, 0xac, 13]);
    assert(e.body.subrange(4, 7) =~= oci);
    assert(seq![e][0] == e);
}

} // verus!
