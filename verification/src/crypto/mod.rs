//! Key derivation, key handshakes and authentication exchanges.

pub mod curve;
pub mod ft;
pub mod handshake4;
pub mod kdf;
pub mod key_frames;
pub mod ocv;
pub mod owe;
pub mod peer;
pub mod primitives;
pub mod sae;
