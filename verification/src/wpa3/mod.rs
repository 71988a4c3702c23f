//! The minimal WPA3-Personal supplicant: SAE by hash-to-element and the
//! 4-way handshake of the SAE AKM with CCMP-128, without downgrade
//! protection, group rekey or the other AKMs.

pub mod error;
pub mod handshake4;
pub mod sae;
