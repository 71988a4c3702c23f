//! Errors of the WiFi client.

use vstd::prelude::*;
use vstd::string::*;

use crate::text;

verus! {

/// What went wrong.
#[derive(Debug, Clone, Copy, PartialEq, Eq, Structural)]
#[non_exhaustive]
pub enum ErrorKind {
    Config,
    Nl80211,
    Io,
    InterfaceNotFound,
    ScanFailed,
    ConnectFailed,
    AuthFailed,
    WrongPassword,
    KeyInstallFailed,
    SaeFailed,
    HandshakeFailed,
    SsidNotFound,
    ConfigNotFound,
    InvalidConfig,
    NetlinkDecode,
    Deprecated,
    Roaming,
}

impl ErrorKind {
    /// The name of the kind in messages.
    pub open spec fn spec_name(self) -> Seq<char> {
        match self {
            ErrorKind::Config => "config"@,
            ErrorKind::Nl80211 => "nl80211"@,
            ErrorKind::Io => "io"@,
            ErrorKind::InterfaceNotFound => "interface-not-found"@,
            ErrorKind::ScanFailed => "scan-failed"@,
            ErrorKind::ConnectFailed => "connect-failed"@,
            ErrorKind::AuthFailed => "auth-failed"@,
            ErrorKind::WrongPassword => "wrong-password"@,
            ErrorKind::KeyInstallFailed => "key-install-failed"@,
            ErrorKind::SaeFailed => "sae-failed"@,
            ErrorKind::HandshakeFailed => "handshake-failed"@,
            ErrorKind::SsidNotFound => "ssid-not-found"@,
            ErrorKind::ConfigNotFound => "config-not-found"@,
            ErrorKind::InvalidConfig => "invalid-config"@,
            ErrorKind::NetlinkDecode => "netlink-decode"@,
            ErrorKind::Deprecated => "deprecated"@,
            ErrorKind::Roaming => "roaming"@,
        }
    }

    /// The name of the kind in messages.
    pub fn name(self) -> (r: &'static str)
        ensures
            r@ == self.spec_name(),
    {
        match self {
            ErrorKind::Config => "config",
            ErrorKind::Nl80211 => "nl80211",
            ErrorKind::Io => "io",
            ErrorKind::InterfaceNotFound => "interface-not-found",
            ErrorKind::ScanFailed => "scan-failed",
            ErrorKind::ConnectFailed => "connect-failed",
            ErrorKind::AuthFailed => "auth-failed",
            ErrorKind::WrongPassword => "wrong-password",
            ErrorKind::KeyInstallFailed => "key-install-failed",
            ErrorKind::SaeFailed => "sae-failed",
            ErrorKind::HandshakeFailed => "handshake-failed",
            ErrorKind::SsidNotFound => "ssid-not-found",
            ErrorKind::ConfigNotFound => "config-not-found",
            ErrorKind::InvalidConfig => "invalid-config",
            ErrorKind::NetlinkDecode => "netlink-decode",
            ErrorKind::Deprecated => "deprecated",
            ErrorKind::Roaming => "roaming",
        }
    }
}

/// An error of the client: its kind, a message, and the interface it
/// belongs to when known.
#[derive(Debug, Clone, PartialEq, Eq)]
#[non_exhaustive]
pub struct WifiError {
    pub kind: ErrorKind,
    pub msg: String,
    pub iface_name: Option<String>,
}

impl WifiError {
    /// Whether this error has the given kind and message and names no
    /// interface.
    pub open spec fn is(self, kind: ErrorKind, msg: Seq<char>) -> bool {
        &&& self.kind == kind
        &&& self.msg@ == msg
        &&& self.iface_name is None
    }

    /// The text of the error: the interface in brackets when there is one,
    /// then the kind and the message.
    pub open spec fn spec_text(self) -> Seq<char> {
        match self.iface_name {
            Some(iface) => "["@ + iface@ + "] "@ + self.kind.spec_name() + ": "@ + self.msg@,
            None => self.kind.spec_name() + ": "@ + self.msg@,
        }
    }

    pub fn new(kind: ErrorKind, msg: &str) -> (r: Self)
        ensures
            r.is(kind, msg@),
    {
        WifiError { kind, msg: text::text(msg), iface_name: None }
    }

    /// Attach the interface the error belongs to.
    pub fn with_iface_name(self, iface_name: &str) -> (r: Self)
        ensures
            r.kind == self.kind,
            r.msg@ == self.msg@,
            r.iface_name matches Some(n) && n@ == iface_name@,
    {
        WifiError { kind: self.kind, msg: self.msg, iface_name: Some(text::text(iface_name)) }
    }

    /// A credential failure against a password-protected network.
    pub fn wrong_password(ssid: &str) -> (r: Self)
        ensures
            r.is(ErrorKind::WrongPassword, "wrong password for SSID '"@ + ssid@ + "'"@),
    {
        let mut msg = text::text2("wrong password for SSID '", ssid);
        msg.append("'");
        WifiError { kind: ErrorKind::WrongPassword, msg, iface_name: None }
    }

    /// The text of the error: the interface in brackets when there is one,
    /// then the kind and the message.
    pub fn to_text(&self) -> (r: String)
        ensures
            r@ == self.spec_text(),
    {
        let mut out = match &self.iface_name {
            Some(iface) => {
                let mut s = text::text2("[", iface.as_str());
                s.append("] ");
                s.append(self.kind.name());
                s
            },
            None => text::text(self.kind.name()),
        };
        out.append(": ");
        out.append(self.msg.as_str());
        out
    }
}

} // verus!
