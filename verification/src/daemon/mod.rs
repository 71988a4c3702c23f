//! The decisions of the daemon: which networks go to which interface, which
//! IP settings a connection gets, and when the daemon counts as successful.

pub mod config;
pub mod decisions;
pub mod ip;
pub mod run;
