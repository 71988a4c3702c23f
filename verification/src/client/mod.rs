//! WPA client core: one [`state::WifiIface`] per wifi-phy.
//!
//! The flow is a simple linear walk over [`state::WifiState`] - Init ->
//! Scanning -> Authenticating -> Connected. There is no internal transition
//! table; events (SAE frames, association results, EAPOL-Key messages)
//! advance the current state directly. The interface decides; whoever drives
//! it performs what was decided (nl80211 requests, waiting) and hands back
//! what came of it.

pub mod associate;
pub mod authenticate;
pub mod connection;
pub mod control;
pub mod events;
pub mod fast_transition;
pub mod handshake;
pub mod installed_keys;
pub mod policy;
pub mod port_frames;
pub mod run;
pub mod sae_frames;
pub mod sched_scan;
pub mod schedule;
pub mod select;
pub mod state;
pub mod suites;
pub mod wifi_client;
pub mod wiphy;
