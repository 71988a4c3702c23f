//! WiFi supplicant library: authentication, key handshakes and the
//! connection state machine of a WPA client.

pub mod auth;
pub mod bytes;
pub mod client;
pub mod config;
pub mod crypto;
pub mod daemon;
pub mod eap;
pub mod eap_tls;
pub mod error;
pub mod ieee80211;
pub mod pmksa;
pub mod scan;
pub mod text;
pub mod wpa3;

use vstd::prelude::*;

pub use error::{ErrorKind, WifiError};

verus! {

/// Length of an Ethernet (MAC) address in bytes.
pub const ETH_ALEN: usize = 6;

} // verus!
