//! Channel / operating-class helpers used to turn neighbor-report entries
//! (802.11k / BTM candidate lists) into frequencies for quick roaming scans.
//!
//! The `Channel Number` field of a Neighbor Report element is the *primary*
//! channel of the AP, so the center-frequency formulas of Annex E apply
//! regardless of the BSS channel width.

use vstd::prelude::*;

verus! {

/// The primary-channel frequency in MHz of a channel in a global operating
/// class, where the class has that channel.
pub open spec fn channel_freq(operating_class: u8, channel: u8) -> Option<u32> {
    if 81 <= operating_class <= 87 && 1 <= channel <= 13 {
        // 2.4 GHz
        Some((2407 + channel * 5) as u32)
    } else if operating_class == 82 && channel == 14 {
        Some(2484)
    } else if 115 <= operating_class <= 130 && 32 <= channel <= 196 {
        // 5 GHz
        Some((5000 + channel * 5) as u32)
    } else if 131 <= operating_class <= 155 && channel % 2 == 1 && channel <= 233 {
        // 6 GHz
        Some((5950 + channel * 5) as u32)
    } else {
        None
    }
}

/// Map a global operating class + channel number to the primary-channel
/// frequency in MHz (802.11-2020 Annex E, Table E-1). Local
/// (country-specific) operating classes are rejected; hostapd and most
/// enterprise APs report global classes.
pub fn operating_class_channel_to_freq(operating_class: u8, channel: u8) -> (r: Option<u32>)
    ensures
        r == channel_freq(operating_class, channel),
{
    if 81 <= operating_class && operating_class <= 87 {
        // 2.4 GHz, classes 81-87 (20/40 MHz channels 1-14).
        if 1 <= channel && channel <= 13 {
            Some(2407 + (channel as u32) * 5)
        } else if operating_class == 82 && channel == 14 {
            Some(2484)
        } else {
            None
        }
    } else if 115 <= operating_class && operating_class <= 130 && 32 <= channel && channel <= 196 {
        // 5 GHz, classes 115-130 (20/40/80/160 MHz channels 32-196).
        Some(5000 + (channel as u32) * 5)
    } else if 131 <= operating_class && operating_class <= 155 && channel % 2 == 1 && channel
        <= 233 {
        // 6 GHz, classes 131-155 (20 MHz channel numbers 1, 5, ..., 233).
        Some(5950 + (channel as u32) * 5)
    } else {
        None
    }
}

/// Every frequency lies in one of the three bands, and within a class two
/// channels never share one.
pub proof fn law_frequency_identifies_channel(operating_class: u8, a: u8, b: u8)
    requires
        channel_freq(operating_class, a) is Some,
        channel_freq(operating_class, b) is Some,
    ensures
        channel_freq(operating_class, a) == channel_freq(operating_class, b) ==> a == b,
        ({
            let f = channel_freq(operating_class, a)->0;
            2412 <= f <= 2484 || 5160 <= f <= 5980 || 5955 <= f <= 7115
        }),
{
}

} // verus!
