//! Errors of the minimal supplicant.

use vstd::prelude::*;
use vstd::string::*;

use crate::text;

verus! {

/// What went wrong.
#[derive(Debug, Clone, Copy, PartialEq, Eq, Structural)]
pub enum ErrorKind {
    Config,
    Nl80211,
    Io,
    InterfaceNotFound,
    ScanFailed,
    ConnectFailed,
    AuthFailed,
    KeyInstallFailed,
    SaeFailed,
    HandshakeFailed,
    SsidNotFound,
    ConfigNotFound,
    InvalidConfig,
    NetlinkDecode,
}

impl ErrorKind {
    /// The name of the kind in messages.
    pub open spec fn spec_name(self) -> Seq<char> {
        match self {
            ErrorKind::Config => "config"@,
            ErrorKind::Nl80211 => "nl80211"@,
            ErrorKind::Io => "io"@,
            ErrorKind::InterfaceNotFound => "interface-not-found"@,
            ErrorKind::ScanFailed => "scan-failed"@,
            ErrorKind::ConnectFailed => "connect-failed"@,
            ErrorKind::AuthFailed => "auth-failed"@,
            ErrorKind::KeyInstallFailed => "key-install-failed"@,
            ErrorKind::SaeFailed => "sae-failed"@,
            ErrorKind::HandshakeFailed => "handshake-failed"@,
            ErrorKind::SsidNotFound => "ssid-not-found"@,
            ErrorKind::ConfigNotFound => "config-not-found"@,
            ErrorKind::InvalidConfig => "invalid-config"@,
            ErrorKind::NetlinkDecode => "netlink-decode"@,
        }
    }

    /// The name of the kind in messages.
    pub fn name(self) -> (r: &'static str)
        ensures
            r@ == self.spec_name(),
    {
        match self {
            ErrorKind::Config => "config",
            ErrorKind::Nl80211 => "nl80211",
            ErrorKind::Io => "io",
            ErrorKind::InterfaceNotFound => "interface-not-found",
            ErrorKind::ScanFailed => "scan-failed",
            ErrorKind::ConnectFailed => "connect-failed",
            ErrorKind::AuthFailed => "auth-failed",
            ErrorKind::KeyInstallFailed => "key-install-failed",
            ErrorKind::SaeFailed => "sae-failed",
            ErrorKind::HandshakeFailed => "handshake-failed",
            ErrorKind::SsidNotFound => "ssid-not-found",
            ErrorKind::ConfigNotFound => "config-not-found",
            ErrorKind::InvalidConfig => "invalid-config",
            ErrorKind::NetlinkDecode => "netlink-decode",
        }
    }
}

/// An error of the minimal supplicant: its kind and a message.
#[derive(Debug, Clone, PartialEq, Eq)]
pub struct WpaError {
    pub kind: ErrorKind,
    pub msg: String,
}

impl WpaError {
    /// Whether this error has the given kind and message.
    pub open spec fn is(self, kind: ErrorKind, msg: Seq<char>) -> bool {
        self.kind == kind && self.msg@ == msg
    }

    pub fn new(kind: ErrorKind, msg: &str) -> (r: Self)
        ensures
            r.is(kind, msg@),
    {
        WpaError { kind, msg: text::text(msg) }
    }

    /// The text of the error: the kind and the message.
    pub fn to_text(&self) -> (r: String)
        ensures
            r@ == self.kind.spec_name() + ": "@ + self.msg@,
    {
        let mut out = text::text2(self.kind.name(), ": ");
        out.append(self.msg.as_str());
        out
    }
}

} // verus!
