//! IEEE 802.11 and 802.1X frame formats.

pub mod assoc;
pub mod auth;
pub mod band;
pub mod eapol;
pub mod elements;
pub mod layouts;
pub mod rrm;
pub mod tlv;
pub mod wnm;
