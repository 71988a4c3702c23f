//! Authentication before the association: open-system or SAE, and what is
//! done when it stalls.

use vstd::prelude::*;
use vstd::string::*;

use crate::auth;
use crate::auth::{AuthAction, AuthMethod, SaeStep};
use crate::bytes;
use crate::client::associate::{security_ie, AssociateRequest};
use crate::client::state::{
    AuthSession, Link, RoamEngine, WifiIface, WifiState, SAE_SYNC_MAX,
};
use crate::config::SaePwe;
use crate::crypto::kdf;
use crate::crypto::primitives;
use crate::crypto::sae;
use crate::crypto::sae::SaeAuth;
use crate::eap::EapPeer;
use crate::eap_tls::EapTlsMethod;
use crate::error::{ErrorKind, WifiError};
use crate::ieee80211;
use crate::ieee80211::elements;
use crate::scan::SecurityType;
use crate::text;

verus! {

/// Max time (seconds) to wait for the next authentication event (SAE frame,
/// association result, 4-way handshake message) before giving up and
/// retrying.
pub const AUTH_EVENT_TIMEOUT_SECS: u64 = 15;

/// SAE retransmission period (seconds): 802.11-2020 §12.4.8.6.2 sets the t0
/// (retransmission) timer to `dot11RSNASAERetransPeriod`, whose MIB default is
/// 2000 ms. While the SAE commit is in flight, a lost frame - or a rejection
/// with a temporary status (see §12.4.8.6.4) - is answered with a
/// retransmission after this period instead of the full
/// `AUTH_EVENT_TIMEOUT_SECS` + rescan.
pub const SAE_COMMIT_RETRANSMIT_TIMEOUT_SECS: u64 = 2;

/// An AUTHENTICATE request for the selected BSS.
#[derive(Debug, Clone, PartialEq, Eq)]
pub enum AuthRequest {
    /// Open-system authentication: open, OWE, WPA2-PSK, FT-PSK, enterprise,
    /// and cached-PMKSA connections.
    OpenSystem,
    /// SAE authentication with this commit as auth_data
    /// (trans||status||body).
    Sae(Vec<u8>),
}

/// The EAP method of an enterprise network, made from its credentials.
pub enum EapSetup {
    /// There are no credentials to make one from.
    Missing,
    /// The credentials could not be read.
    Unusable(WifiError),
    /// The method.
    Ready(EapTlsMethod),
}

/// What an authentication step asks for.
#[derive(Debug, Clone, PartialEq, Eq)]
pub enum AuthStep {
    /// Nothing to send. The state says whether the attempt failed.
    Nothing,
    /// Send this SAE confirm as auth_data.
    SendConfirm(Vec<u8>),
    /// Send this SAE commit as auth_data.
    SendCommit(Vec<u8>),
    /// SAE is complete: associate.
    Associate(AssociateRequest),
}

/// The auth_data of a confirm: trans(2 LE=2) || status(2 LE=0) ||
/// send_confirm(2 LE=1) || confirm_hash(32).
pub open spec fn confirm_auth_data(confirm: Seq<u8>) -> Seq<u8> {
    seq![2u8, 0, 0, 0, 1, 0] + confirm
}

/// The security mode whose elements an association after SAE carries.
pub open spec fn sae_mode(security: SecurityType) -> SecurityType {
    if security.spec_is_sae() {
        security
    } else {
        SecurityType::Sae
    }
}

impl Link {
    /// The link at the start of an attempt: no keys and no handshake.
    pub open spec fn attempt_reset(self) -> Link {
        Link {
            fourway: None,
            pmksa_in_use: None,
            pending_ft_msg1: None,
            ..self
        }
    }

    /// Whether SAE starts with hash-to-element against the link's AP.
    pub open spec fn starts_h2e(self) -> bool {
        ||| self.network.sae_password_id is Some
        ||| self.network.sae_pwe == SaePwe::H2E
        ||| self.network.sae_pwe == SaePwe::Auto && self.bss_info.ap_rsnxe@.len() >= 3
            && self.bss_info.ap_rsnxe@[2] & 0x20 != 0
    }

    /// The octets of the network's SAE password identifier, where it has one.
    pub open spec fn password_id(self) -> Option<Seq<u8>> {
        match self.network.sae_password_id {
            Some(id) => Some(vstd::utf8::encode_utf8(id@)),
            None => None,
        }
    }

    /// Whether SAE may fall back to the other PWE derivation method.
    pub open spec fn may_fall_back(self) -> bool {
        self.network.sae_pwe == SaePwe::Auto && self.network.sae_password_id is None
    }

    /// The elements of the association after SAE; none where FT needs a
    /// mobility domain and the AP advertises none.
    pub open spec fn sae_assoc_ie(self) -> Option<Seq<u8>> {
        let ie = security_ie(
            sae_mode(self.bss_info.security),
            None,
            self.bss_info.group_mgmt_cipher,
        );
        if self.bss_info.security == SecurityType::FtSae || self.bss_info.security
            == SecurityType::FtSaeExtKey {
            match self.mdie_octets() {
                Some(m) => Some(ie + m),
                None => None,
            }
        } else {
            Some(ie)
        }
    }
}

impl WifiIface {
    /// Whether a PMKSA for the selected BSS is cached and has not expired,
    /// for a security mode that can use one.
    pub open spec fn has_cached_pmksa(self, now: u64) -> bool {
        let key = (self.link.network.ssid@, self.link.bss_info.bssid@);
        let security = self.link.bss_info.security;
        &&& security.spec_is_sae() || security.spec_is_psk()
        &&& self.pmksa_cache@.dom().contains(key)
        &&& now < self.pmksa_cache@[key].expires
    }

    /// Whether this is `before` at the start of an attempt: the keys, the
    /// handshake and the exchanges of the last attempt are gone, and nothing
    /// else has changed.
    pub open spec fn attempt_begun(self, before: Self) -> bool {
        &&& self == (WifiIface {
            auth: self.auth,
            link: Link { pmksa_in_use: self.link.pmksa_in_use, ..before.link.attempt_reset() },
            roam: RoamEngine { ft_roam: false, ..before.roam },
            ..before
        })
        &&& self.auth.owe is None
        &&& self.auth.eap_pmk is None
        &&& !self.auth.sae_commit_sent
        &&& self.auth.sae_sync == 0
        &&& self.auth.sae_commit_auth_data@.len() == 0
        &&& !self.auth.sae_hnp_attempted
    }

    /// Whether this is `before` after a failed authentication, with the error
    /// recorded for the caller.
    pub open spec fn auth_failed(self, before: Self, auth: AuthSession, e: WifiError) -> bool {
        self == (WifiIface {
            auth,
            state: WifiState::FailedAuthentication,
            last_error: Some(e),
            ..before
        })
    }

    /// Start authentication with the selected BSS.
    ///
    /// PMKSA cache hit: send open-system AUTHENTICATE and associate with the
    /// cached PMKID, skipping the full SAE exchange.
    ///
    /// Open networks: send open-system AUTHENTICATE (no auth method, no SAE).
    ///
    /// SAE networks: create a fresh SAE auth method and send the commit.
    ///
    /// WPA2-Enterprise runs EAP over the control port after association; the
    /// EAP peer is prepared now, so the first EAP-Request/Identity finds it
    /// ready.
    pub fn begin_auth(&mut self, eap: EapSetup, now: u64) -> (r: Result<AuthRequest, WifiError>)
        requires
            old(self).wf(),
        ensures
            final(self).wf(),
            final(self).attempt_begun(*old(self)),
            ({
                let before = *old(self);
                let after = *final(self);
                let link = before.link;
                let security = link.bss_info.security;
                let cached = before.has_cached_pmksa(now);
                if security.spec_is_enterprise() && link.network.eap is None {
                    &&& r matches Err(e)
                    &&& e.is(
                        ErrorKind::InvalidConfig,
                        security.spec_name() + " network requires EAP credentials"@,
                    )
                } else if security.spec_is_enterprise() && !(eap is Ready) {
                    &&& r matches Err(e)
                    &&& match eap {
                        EapSetup::Unusable(error) => e == error,
                        _ => e.is(
                            ErrorKind::InvalidConfig,
                            security.spec_name() + " network requires EAP credentials"@,
                        ),
                    }
                } else if !cached && security.spec_is_psk() && link.network.password is None {
                    &&& r matches Err(e)
                    &&& e.is(ErrorKind::InvalidConfig, "password required for WPA2-PSK"@)
                } else if cached || !security.spec_is_sae() {
                    &&& r matches Ok(AuthRequest::OpenSystem)
                    &&& after.auth.psk_pmk matches Some(pmk) ==> pmk@ == primitives::pbkdf2_sha1(
                        4096,
                        vstd::utf8::encode_utf8(link.network.ssid@),
                        vstd::utf8::encode_utf8(link.network.password->0@),
                        32,
                    )
                    &&& after.auth.eap_peer matches Some(p) ==> {
                        &&& p.identity@ == link.network.eap->0.identity@
                        &&& p.supported_types@.len() == 0
                        &&& eap matches EapSetup::Ready(m) && p.method == Some(m)
                    }
                } else if link.network.password is None {
                    &&& r matches Err(e)
                    &&& e.is(ErrorKind::InvalidConfig, "password required for encrypted network"@)
                } else {
                    sae_begun(before, after, r)
                }
            }),
            ({
                let link = old(self).link;
                let security = link.bss_info.security;
                let fresh = !old(self).has_cached_pmksa(now) && link.network.password is Some;
                let auth = final(self).auth;
                &&& auth.eap_peer is Some <==> security.spec_is_enterprise()
                    && link.network.eap is Some && eap is Ready
                &&& auth.psk_pmk is Some <==> fresh && security.spec_is_psk()
                &&& auth.method is Some ==> fresh && security.spec_is_sae()
            }),
            final(self).link.pmksa_in_use is Some <==> old(self).has_cached_pmksa(now),
            old(self).has_cached_pmksa(now) ==> {
                &&& final(self).link.pmksa_in_use matches Some(e)
                &&& e@ == old(self).pmksa_cache@[(
                    old(self).link.network.ssid@,
                    old(self).link.bss_info.bssid@,
                )]
            },
            auth_begun(*old(self), *final(self), eap, now, r),
    {
        self.auth.reset();
        self.link.fourway = None;
        self.link.pmksa_in_use = None;
        self.link.pending_ft_msg1 = None;
        self.roam.ft_roam = false;
        let security = self.link.bss_info.security;
        if security.is_enterprise() {
            match (&self.link.network.eap, eap) {
                (Some(cfg), EapSetup::Ready(method)) => {
                    let mut peer = EapPeer::new(crate::config::copy_text(&cfg.identity));
                    peer.set_method(method);
                    self.auth.eap_peer = Some(peer);
                },
                (Some(_), EapSetup::Unusable(e)) => {
                    return Err(e);
                },
                _ => {
                    let msg = text::text2(security.name(), " network requires EAP credentials");
                    return Err(WifiError::new(ErrorKind::InvalidConfig, msg.as_str()));
                },
            }
        }
        // A cached PMKSA for the selected BSS replaces the full authentication
        // (SAE) with open-system auth + a PMKID-bearing RSNE at association
        // time.
        if security.is_sae() || security.is_psk() {
            self.link.pmksa_in_use = self.pmksa_cache.lookup(
                &self.link.network.ssid,
                &self.link.bss_info.bssid,
                now,
            );
        }
        if self.link.pmksa_in_use.is_some() || !security.is_sae() {
            // Open-system authentication. OWE's DH exchange happens in the
            // association request/response; the PSK AKMs derive the PMK from
            // the passphrase via PBKDF2.
            if self.link.pmksa_in_use.is_none() && security.is_psk() {
                match &self.link.network.password {
                    Some(password) => {
                        self.auth.psk_pmk = Some(
                            kdf::pbkdf2_pmk(password.as_str(), self.link.network.ssid.as_str()),
                        );
                    },
                    None => {
                        return Err(
                            WifiError::new(
                                ErrorKind::InvalidConfig,
                                "password required for WPA2-PSK",
                            ),
                        );
                    },
                }
            }
            return Ok(AuthRequest::OpenSystem);
        }
        // `Auto` follows the AP's RSNXE from the scan instead of guessing H2E
        // first - an AP that never advertises H2E support (or advertises none
        // at all) gets hunting-and-pecking on the very first commit.
        let has_id = self.link.network.sae_password_id.is_some();
        let h2e = self.link.network.sae_pwe.starts_h2e(self.link.bss_info.ap_supports_sae_h2e())
            || has_id;
        let hnp_fallback = self.link.network.sae_pwe.allows_hnp_fallback() && !has_id;
        let made = match &self.link.network.password {
            Some(password) => AuthMethod::new_sae(
                password.as_str(),
                self.link.network.ssid.as_str(),
                self.core.mac,
                self.link.bss_info.bssid,
                h2e,
                hnp_fallback,
                match &self.link.network.sae_password_id {
                    Some(id) => Some(id.as_str()),
                    None => None,
                },
            ),
            None => {
                return Err(
                    WifiError::new(
                        ErrorKind::InvalidConfig,
                        "password required for encrypted network",
                    ),
                );
            },
        };
        let mut method = match made {
            Ok(m) => m,
            Err(e) => {
                return Err(e);
            },
        };
        let sent = method.initial_frame();
        self.auth.method = Some(method);
        match sent {
            Ok(auth_data) => Ok(AuthRequest::Sae(auth_data)),
            Err(e) => Err(e),
        }
    }

    /// The initial AUTHENTICATE request was sent: remember an SAE commit so a
    /// lost frame is answered with a retransmission (SAE Sync) instead of a
    /// full rescan cycle.
    pub fn auth_request_sent(&mut self, request: AuthRequest)
        requires
            old(self).wf(),
        ensures
            final(self).wf(),
            match request {
                AuthRequest::OpenSystem => *final(self) == *old(self),
                AuthRequest::Sae(auth_data) => *final(self) == (WifiIface {
                    auth: AuthSession {
                        sae_commit_sent: true,
                        sae_sync: 0,
                        sae_commit_auth_data: auth_data,
                        ..old(self).auth
                    },
                    ..*old(self)
                }),
            },
    {
        match request {
            AuthRequest::OpenSystem => {},
            AuthRequest::Sae(auth_data) => {
                self.auth.sae_commit_sent = true;
                self.auth.sae_sync = 0;
                self.auth.sae_commit_auth_data = auth_data;
            },
        }
    }

    /// An SAE commit was (re)sent, or could not be. It stays in flight until
    /// the AP's commit arrives.
    pub fn commit_sent(&mut self, auth_data: Vec<u8>, ok: bool)
        requires
            old(self).wf(),
        ensures
            final(self).wf(),
            *final(self) == if ok {
                WifiIface {
                    auth: AuthSession {
                        sae_commit_sent: true,
                        sae_commit_auth_data: auth_data,
                        ..old(self).auth
                    },
                    ..*old(self)
                }
            } else {
                WifiIface { state: WifiState::Failed, ..*old(self) }
            },
    {
        if ok {
            self.auth.sae_commit_sent = true;
            self.auth.sae_commit_auth_data = auth_data;
        } else {
            self.state = WifiState::Failed;
        }
    }

    /// An SAE confirm was sent, or could not be. The commit exchange is done;
    /// only the confirm wait remains, which is not retransmitted.
    pub fn confirm_sent(&mut self, ok: bool)
        requires
            old(self).wf(),
        ensures
            final(self).wf(),
            *final(self) == if ok {
                WifiIface {
                    auth: AuthSession { sae_commit_sent: false, ..old(self).auth },
                    ..*old(self)
                }
            } else {
                WifiIface { state: WifiState::Failed, ..*old(self) }
            },
    {
        if ok {
            self.auth.sae_commit_sent = false;
        } else {
            self.state = WifiState::Failed;
        }
    }

    /// Whether the current connection attempt is an initial WPA2-PSK / FT-PSK
    /// 4-way handshake (i.e. the passphrase is verified by the handshake, not
    /// by an earlier SAE/PMKSA exchange).
    pub open spec fn psk_4way(self) -> bool {
        self.link.pmksa_in_use is None && self.link.bss_info.security.spec_is_psk()
    }

    /// Whether the current connection attempt is an initial WPA2-PSK / FT-PSK
    /// 4-way handshake (i.e. the passphrase is verified by the handshake, not
    /// by an earlier SAE/PMKSA exchange).
    pub fn is_psk_4way_in_progress(&self) -> (r: bool)
        ensures
            r == self.psk_4way(),
    {
        self.link.pmksa_in_use.is_none() && self.link.bss_info.security.is_psk()
    }

    /// The AP rejected the H2E commit (an HnP-only AP); restart the SAE
    /// exchange with a hunting-and-pecking commit. Only attempted once per
    /// connection attempt (`sae_hnp_attempted`): the new exchange allows no
    /// further fallback.
    pub fn restart_sae_with_hnp(&mut self) -> (r: AuthStep)
        requires
            old(self).wf(),
        ensures
            final(self).wf(),
            sae_restarted(*old(self), *final(self), false, r),
    {
        self.restart_sae(false)
    }

    /// The AP rejected the hunting-and-pecking commit, or left it unanswered
    /// (an H2E-only AP whose RSNXE is missing or misleading); restart the SAE
    /// exchange with a hash-to-element commit. Only attempted once per
    /// connection attempt: the new exchange allows no further fallback.
    pub fn restart_sae_with_h2e(&mut self) -> (r: AuthStep)
        requires
            old(self).wf(),
        ensures
            final(self).wf(),
            sae_restarted(*old(self), *final(self), true, r),
    {
        self.restart_sae(true)
    }

    /// Restart the SAE exchange with the given PWE derivation method.
    fn restart_sae(&mut self, h2e: bool) -> (r: AuthStep)
        requires
            old(self).wf(),
        ensures
            final(self).wf(),
            sae_restarted(*old(self), *final(self), h2e, r),
    {
        let made = match &self.link.network.password {
            Some(password) => AuthMethod::new_sae(
                password.as_str(),
                self.link.network.ssid.as_str(),
                self.core.mac,
                self.link.bss_info.bssid,
                h2e,
                false,
                None,
            ),
            None => {
                let e = WifiError::new(
                    ErrorKind::InvalidConfig,
                    if h2e {
                        "no password for H2E SAE restart"
                    } else {
                        "no password for HnP SAE restart"
                    },
                );
                self.fail_auth(e);
                return AuthStep::Nothing;
            },
        };
        let mut method = match made {
            Ok(m) => m,
            Err(e) => {
                self.fail_auth(e);
                return AuthStep::Nothing;
            },
        };
        let sent = method.initial_frame();
        self.auth.method = Some(method);
        self.auth.sae_hnp_attempted = true;
        match sent {
            Ok(auth_data) => {
                self.auth.sae_sync = 0;
                AuthStep::SendCommit(auth_data)
            },
            Err(e) => {
                self.fail_auth(e);
                AuthStep::Nothing
            },
        }
    }

    /// How long (seconds) to wait for the next authentication event.
    pub open spec fn spec_auth_wait(self) -> u64 {
        if self.auth.sae_commit_sent && self.auth.sae_sync < SAE_SYNC_MAX {
            SAE_COMMIT_RETRANSMIT_TIMEOUT_SECS
        } else {
            AUTH_EVENT_TIMEOUT_SECS
        }
    }

    /// How long (seconds) to wait for the next authentication event.
    pub fn auth_wait_secs(&self) -> (r: u64)
        ensures
            r == self.spec_auth_wait(),
    {
        if self.auth.sae_commit_sent && self.auth.sae_sync < SAE_SYNC_MAX {
            SAE_COMMIT_RETRANSMIT_TIMEOUT_SECS
        } else {
            AUTH_EVENT_TIMEOUT_SECS
        }
    }

    /// Whether a timeout restarts SAE with the other PWE derivation method:
    /// some APs silently drop a commit made with a method they do not know
    /// instead of answering with a rejection status.
    pub open spec fn timeout_restarts(self) -> bool {
        &&& self.auth.method matches Some(m) && m.exchange().hnp_fallback
        &&& !self.auth.sae_hnp_attempted
    }

    /// No authentication event came in time. While the SAE commit is in
    /// flight the frame was lost: re-send the same commit (SAE Sync counter,
    /// max 3) instead of failing over to a full rescan cycle. After that,
    /// retry once with the other method before giving up. A WPA2-PSK 4-way
    /// handshake that stalls means a wrong password.
    pub fn auth_timed_out(&mut self) -> (r: AuthStep)
        requires
            old(self).wf(),
        ensures
            final(self).wf(),
            ({
                let before = *old(self);
                let after = *final(self);
                if before.auth.sae_commit_sent && before.auth.sae_sync < SAE_SYNC_MAX {
                    &&& r matches AuthStep::SendCommit(data)
                    &&& data@ == before.auth.sae_commit_auth_data@
                    &&& after == (WifiIface {
                        auth: AuthSession {
                            sae_sync: (before.auth.sae_sync + 1) as u8,
                            ..before.auth
                        },
                        ..before
                    })
                } else if before.timeout_restarts() {
                    sae_restarted(before, after, !before.auth.method->0.exchange().h2e, r)
                } else {
                    &&& r is Nothing
                    &&& if before.psk_4way() && before.link.fourway is Some {
                        &&& after.last_error matches Some(e)
                        &&& e.is(
                            ErrorKind::WrongPassword,
                            "wrong password for SSID '"@ + before.link.network.ssid@ + "'"@,
                        )
                        &&& after.auth_failed(before, before.auth, e)
                    } else {
                        after == (WifiIface { state: WifiState::Failed, ..before })
                    }
                }
            }),
            timeout_outcome(*old(self), *final(self), r),
    {
        if self.auth.sae_commit_sent && self.auth.sae_sync < SAE_SYNC_MAX {
            self.auth.sae_sync = self.auth.sae_sync + 1;
            return AuthStep::SendCommit(bytes::to_vec(self.auth.sae_commit_auth_data.as_slice()));
        }
        let (restarts, h2e) = match &self.auth.method {
            Some(AuthMethod::Sae(s)) => (s.hnp_fallback_allowed(), s.is_h2e()),
            None => (false, false),
        };
        if restarts && !self.auth.sae_hnp_attempted {
            return if h2e {
                self.restart_sae_with_hnp()
            } else {
                self.restart_sae_with_h2e()
            };
        }
        if self.is_psk_4way_in_progress() && self.link.fourway.is_some() {
            let e = WifiError::wrong_password(self.link.network.ssid.as_str());
            self.fail_auth(e);
            return AuthStep::Nothing;
        }
        self.state = WifiState::Failed;
        AuthStep::Nothing
    }

    /// Whether a management frame belongs to the exchange in progress: an SAE
    /// authentication frame from the AP we are authenticating with. On a
    /// shared medium the SAE frames of a parallel exchange would otherwise
    /// corrupt ours.
    pub open spec fn takes_auth_frame(self, frame: Seq<u8>) -> bool {
        &&& ieee80211::auth::is_sae_auth_frame(frame)
        &&& frame.subrange(10, 16) == self.link.bss_info.bssid@
        &&& self.auth.method is Some
    }

    /// Feed an 802.11 management frame (or the auth frame embedded in an
    /// AUTHENTICATE event) into the active auth method.
    pub fn handle_auth_frame(&mut self, frame: &[u8]) -> (r: AuthStep)
        requires
            old(self).wf(),
        ensures
            final(self).wf(),
            if old(self).takes_auth_frame(frame@) {
                auth_frame_outcome(*old(self), *final(self), frame@, r)
            } else {
                r is Nothing && *final(self) == *old(self)
            },
    {
        if frame.len() >= 16 {
            let sender = vstd::slice::slice_subrange(frame, 10, 16);
            if !bytes::same(sender, &self.link.bss_info.bssid) {
                return AuthStep::Nothing;
            }
        }
        let (auth_seq, status, payload) = match ieee80211::auth::parse_sae_auth_frame(frame) {
            Some(parts) => parts,
            None => {
                return AuthStep::Nothing;
            },
        };
        let mut method = match self.auth.method.take() {
            Some(m) => m,
            None => {
                return AuthStep::Nothing;
            },
        };
        let processed = method.process_frame(auth_seq, status, payload.as_slice());
        let mut token_commit: Option<Result<Vec<u8>, WifiError>> = None;
        if let Ok(AuthAction::SendCommitWithToken(token)) = &processed {
            // The AP demanded an anti-clogging token - re-send the commit
            // (fresh scalar/element) with the token.
            token_commit = Some(method.commit_with_token(token.as_slice()));
        }
        self.auth.method = Some(method);
        let action = match processed {
            Ok(action) => action,
            Err(e) => {
                // SAE crypto failure (wrong password / confirm mismatch): use
                // the long retry backoff.
                self.fail_auth(e);
                return AuthStep::Nothing;
            },
        };
        match action {
            AuthAction::Continue => AuthStep::Nothing,
            AuthAction::SendConfirm(confirm) => {
                let mut auth_data: Vec<u8> = Vec::new();
                bytes::push_le16(&mut auth_data, 2);
                bytes::push_le16(&mut auth_data, 0);
                bytes::push_le16(&mut auth_data, 1);
                bytes::append(&mut auth_data, confirm.as_slice());
                assert(auth_data@ =~= confirm_auth_data(confirm@));
                AuthStep::SendConfirm(auth_data)
            },
            AuthAction::SendCommitWithToken(_) => match token_commit {
                Some(Ok(auth_data)) => {
                    self.auth.sae_sync = 0;
                    AuthStep::SendCommit(auth_data)
                },
                Some(Err(e)) => {
                    self.fail_auth(e);
                    AuthStep::Nothing
                },
                None => AuthStep::Nothing,
            },
            // The AP rejected the H2E commit; restart the exchange with
            // hunting-and-pecking.
            AuthAction::RetryWithHnp => self.restart_sae_with_hnp(),
            // The AP rejected the hunting-and-pecking commit; restart the
            // exchange with hash-to-element.
            AuthAction::RetryWithH2e => self.restart_sae_with_h2e(),
            AuthAction::RetryTemporarily => {
                // 802.11-2020 §12.4.8.6.4 (Committed state): a nonzero status
                // is silently discarded and the t0 (retransmission) timer set
                // - the wait re-sends the same commit on expiry and increments
                // the Sync counter. Only once Sync is exhausted does the
                // protocol instance give up.
                if self.auth.sae_sync >= SAE_SYNC_MAX {
                    self.state = WifiState::Failed;
                }
                AuthStep::Nothing
            },
            AuthAction::Complete => self.associate_after_sae(),
        }
    }

    /// SAE is complete: associate with the elements of the security mode.
    fn associate_after_sae(&mut self) -> (r: AuthStep)
        ensures
            sae_completed(*old(self), *final(self), old(self).auth, r),
    {
        let cipher = self.link.bss_info.group_mgmt_cipher;
        let security = self.link.bss_info.security;
        let rsne = match security {
            SecurityType::FtSae => elements::ft_sae_ie_cipher(None, cipher),
            SecurityType::FtSaeExtKey => elements::ft_sae_ext_key_ie_cipher(None, cipher),
            SecurityType::SaeExtKey => elements::sae_ext_key_ie_cipher(cipher),
            _ => elements::sae_ie_cipher(cipher),
        };
        // FT initial mobility domain association: the request carries the
        // MDIE.
        let ft = matches!(security, SecurityType::FtSae | SecurityType::FtSaeExtKey);
        let ies = if ft {
            match self.link.append_ft_mdie(rsne) {
                Some(ies) => ies,
                None => {
                    self.state = WifiState::Failed;
                    return AuthStep::Nothing;
                },
            }
        } else {
            rsne
        };
        AuthStep::Associate(self.link.associate(ies, true, false))
    }
}

/// Whether `after` and `r` are the start of an SAE exchange from `before`.
pub open spec fn sae_begun(
    before: WifiIface,
    after: WifiIface,
    r: Result<AuthRequest, WifiError>,
) -> bool {
    let link = before.link;
    let password = vstd::utf8::encode_utf8(link.network.password->0@);
    let ssid = vstd::utf8::encode_utf8(link.network.ssid@);
    let sta = before.core.mac@;
    let ap = link.bss_info.bssid@;
    let id = link.password_id();
    match after.auth.method {
        Some(m) => match r {
            Ok(request) => {
                &&& request matches AuthRequest::Sae(data)
                &&& exists|x0: SaeAuth|
                    x0.is_fresh(
                        password,
                        ssid,
                        sta,
                        ap,
                        link.starts_h2e(),
                        link.may_fall_back(),
                        id,
                    ) && #[trigger] m.exchange().commits(x0)
                &&& data@ == m.exchange().commit_data(None)
            },
            Err(e) => {
                &&& sae::is_rng_failure(e)
                &&& m.exchange().is_fresh(
                    password,
                    ssid,
                    sta,
                    ap,
                    link.starts_h2e(),
                    link.may_fall_back(),
                    id,
                )
            },
        },
        None => r matches Err(e) && sae::no_exchange(
            e,
            password,
            ssid,
            sta,
            ap,
            link.starts_h2e(),
            id,
        ),
    }
}

/// Whether `after` and `r` are a restart of SAE from `before`, with
/// hash-to-element or with hunting-and-pecking. The new exchange may not fall
/// back again.
pub open spec fn sae_restarted(
    before: WifiIface,
    after: WifiIface,
    h2e: bool,
    r: AuthStep,
) -> bool {
    let link = before.link;
    let sta = before.core.mac@;
    let ap = link.bss_info.bssid@;
    let password = vstd::utf8::encode_utf8(link.network.password->0@);
    let ssid = vstd::utf8::encode_utf8(link.network.ssid@);
    match r {
        AuthStep::SendCommit(data) => {
            &&& link.network.password is Some
            &&& after.auth.method matches Some(m)
            &&& exists|x0: SaeAuth|
                x0.is_fresh(password, ssid, sta, ap, h2e, false, None)
                    && #[trigger] m.exchange().commits(x0)
            &&& data@ == m.exchange().commit_data(None)
            &&& after == (WifiIface {
                auth: AuthSession {
                    method: Some(m),
                    sae_hnp_attempted: true,
                    sae_sync: 0,
                    ..before.auth
                },
                ..before
            })
        },
        AuthStep::Nothing => {
            &&& after.last_error matches Some(e)
            &&& after.auth_failed(before, after.auth, e)
            &&& {
                ||| {
                    &&& link.network.password is None
                    &&& e.is(
                        ErrorKind::InvalidConfig,
                        if h2e {
                            "no password for H2E SAE restart"@
                        } else {
                            "no password for HnP SAE restart"@
                        },
                    )
                    &&& after.auth == before.auth
                }
                ||| {
                    &&& link.network.password is Some
                    &&& sae::no_exchange(e, password, ssid, sta, ap, h2e, None)
                    &&& after.auth == before.auth
                }
                ||| {
                    &&& link.network.password is Some
                    &&& sae::is_rng_failure(e)
                    &&& after.auth.method matches Some(m)
                    &&& m.exchange().is_fresh(password, ssid, sta, ap, h2e, false, None)
                    &&& after.auth == (AuthSession {
                        method: Some(m),
                        sae_hnp_attempted: true,
                        ..before.auth
                    })
                }
            }
        },
        _ => false,
    }
}

/// Whether `after` and `r` are what follows a completed SAE exchange.
pub open spec fn sae_completed(
    before: WifiIface,
    after: WifiIface,
    auth: AuthSession,
    r: AuthStep,
) -> bool {
    match before.link.sae_assoc_ie() {
        Some(ie) => {
            &&& r matches AuthStep::Associate(req)
            &&& before.link.is_request(req, ie, true, false)
            &&& after == (WifiIface { auth, ..before })
        },
        None => r is Nothing && after == (WifiIface { auth, state: WifiState::Failed, ..before }),
    }
}

/// Whether `after` and `r` are what follows in `before` when no authentication
/// event came in time.
pub open spec fn timeout_outcome(before: WifiIface, after: WifiIface, r: AuthStep) -> bool {
    if before.auth.sae_commit_sent && before.auth.sae_sync < SAE_SYNC_MAX {
        &&& r matches AuthStep::SendCommit(data)
        &&& data@ == before.auth.sae_commit_auth_data@
        &&& after == (WifiIface {
            auth: AuthSession {
                sae_sync: (before.auth.sae_sync + 1) as u8,
                ..before.auth
            },
            ..before
        })
    } else if before.timeout_restarts() {
        sae_restarted(before, after, !before.auth.method->0.exchange().h2e, r)
    } else {
        &&& r is Nothing
        &&& if before.psk_4way() && before.link.fourway is Some {
            &&& after.last_error matches Some(e)
            &&& e.is(
                ErrorKind::WrongPassword,
                "wrong password for SSID '"@ + before.link.network.ssid@ + "'"@,
            )
            &&& after.auth_failed(before, before.auth, e)
        } else {
            after == (WifiIface { state: WifiState::Failed, ..before })
        }
    }
}

/// Whether `after` and `r` are what beginning an authentication at a time makes
/// of `before`, with an 802.1X method where there is one.
pub open spec fn auth_begun(
    before: WifiIface,
    after: WifiIface,
    eap: EapSetup,
    now: u64,
    r: Result<AuthRequest, WifiError>,
) -> bool {
    &&& {
        let link = before.link;
        let security = link.bss_info.security;
        let cached = before.has_cached_pmksa(now);
        if security.spec_is_enterprise() && link.network.eap is None {
            &&& r matches Err(e)
            &&& e.is(
                ErrorKind::InvalidConfig,
                security.spec_name() + " network requires EAP credentials"@,
            )
        } else if security.spec_is_enterprise() && !(eap is Ready) {
            &&& r matches Err(e)
            &&& match eap {
                EapSetup::Unusable(error) => e == error,
                _ => e.is(
                    ErrorKind::InvalidConfig,
                    security.spec_name() + " network requires EAP credentials"@,
                ),
            }
        } else if !cached && security.spec_is_psk() && link.network.password is None {
            &&& r matches Err(e)
            &&& e.is(ErrorKind::InvalidConfig, "password required for WPA2-PSK"@)
        } else if cached || !security.spec_is_sae() {
            &&& r matches Ok(AuthRequest::OpenSystem)
            &&& after.auth.psk_pmk matches Some(pmk) ==> pmk@ == primitives::pbkdf2_sha1(
                4096,
                vstd::utf8::encode_utf8(link.network.ssid@),
                vstd::utf8::encode_utf8(link.network.password->0@),
                32,
            )
            &&& after.auth.eap_peer matches Some(p) ==> {
                &&& p.identity@ == link.network.eap->0.identity@
                &&& p.supported_types@.len() == 0
                &&& eap matches EapSetup::Ready(m) && p.method == Some(m)
            }
        } else if link.network.password is None {
            &&& r matches Err(e)
            &&& e.is(ErrorKind::InvalidConfig, "password required for encrypted network"@)
        } else {
            sae_begun(before, after, r)
        }
    }
    &&& {
        let link = before.link;
        let security = link.bss_info.security;
        let fresh = !before.has_cached_pmksa(now) && link.network.password is Some;
        let auth = after.auth;
        &&& auth.eap_peer is Some <==> security.spec_is_enterprise()
            && link.network.eap is Some && eap is Ready
        &&& auth.psk_pmk is Some <==> fresh && security.spec_is_psk()
        &&& auth.method is Some ==> fresh && security.spec_is_sae()
    }
    &&& after.link.pmksa_in_use is Some <==> before.has_cached_pmksa(now)
    &&& before.has_cached_pmksa(now) ==> {
        &&& after.link.pmksa_in_use matches Some(e)
        &&& e@ == before.pmksa_cache@[(
            before.link.network.ssid@,
            before.link.bss_info.bssid@,
        )]
    }
}

/// Whether `after` and `r` are what an SAE authentication frame makes of
/// `before`.
pub open spec fn auth_frame_outcome(
    before: WifiIface,
    after: WifiIface,
    frame: Seq<u8>,
    r: AuthStep,
) -> bool {
    let auth_seq = bytes::le16(frame[26], frame[27]);
    let status = bytes::le16(frame[28], frame[29]);
    let payload = frame.subrange(30, frame.len() as int);
    let x0 = before.auth.method->0.exchange();
    let with = |x: SaeAuth|
        AuthSession { method: Some(AuthMethod::Sae(x)), ..before.auth };
    let refused = |kind: ErrorKind, msg: Seq<char>|
        {
            &&& r is Nothing
            &&& after.last_error matches Some(e)
            &&& e.is(kind, msg)
            &&& after.auth_failed(before, before.auth, e)
        };
    match auth::sae_step(x0.confirmed, x0.h2e, x0.hnp_fallback, auth_seq, status, payload) {
        SaeStep::Ignore => r is Nothing && after == before,
        SaeStep::Token => match sae::token_of(x0.h2e, payload) {
            Err(msg) => refused(ErrorKind::SaeFailed, msg),
            Ok(token) => if x0.kck is Some {
                refused(
                    ErrorKind::SaeFailed,
                    "cannot retry commit with token after processing the peer"@,
                )
            } else {
                match r {
                    AuthStep::SendCommit(data) => {
                        let x1 = after.auth.method->0.exchange();
                        &&& x1.commits(x0)
                        &&& data@ == x1.commit_data(Some(token))
                        &&& after == (WifiIface {
                            auth: AuthSession { sae_sync: 0, ..with(x1) },
                            ..before
                        })
                    },
                    _ => {
                        &&& r is Nothing
                        &&& after.last_error matches Some(e)
                        &&& sae::is_rng_failure(e)
                        &&& after.auth_failed(before, before.auth, e)
                    },
                }
            },
        },
        SaeStep::Refused(msg) => refused(ErrorKind::AuthFailed, msg),
        SaeStep::Temporary => r is Nothing && after == if before.auth.sae_sync < SAE_SYNC_MAX {
            before
        } else {
            WifiIface { state: WifiState::Failed, ..before }
        },
        SaeStep::Hnp => sae_restarted(before, after, false, r),
        SaeStep::H2e => sae_restarted(before, after, true, r),
        SaeStep::Commit => {
            let scalar = payload.subrange(2, 34);
            let elem = payload.subrange(34, 98);
            match x0.commit_error(scalar, elem) {
                None => {
                    let x1 = after.auth.method->0.exchange();
                    &&& r matches AuthStep::SendConfirm(data)
                    &&& x1.derived(x0, scalar, elem)
                    &&& data@ == confirm_auth_data(x1.own_confirm(scalar, elem))
                    &&& after == (WifiIface { auth: with(x1), ..before })
                },
                Some(msg) => refused(ErrorKind::SaeFailed, msg),
            }
        },
        SaeStep::Confirm => match x0.confirm_error(payload) {
            None => sae_completed(
                before,
                after,
                with(SaeAuth { confirmed: true, ..x0 }),
                r,
            ),
            Some(msg) => refused(ErrorKind::SaeFailed, msg),
        },
    }
}

/// A restart is the last one of its attempt: no frame makes the restarted
/// exchange ask for another, and no timeout does.
pub proof fn law_sae_restarts_once(
    before: WifiIface,
    after: WifiIface,
    h2e: bool,
    r: AuthStep,
    auth_seq: u16,
    status: u16,
    payload: Seq<u8>,
)
    requires
        sae_restarted(before, after, h2e, r),
        r is SendCommit,
    ensures
        !after.timeout_restarts(),
        ({
            let x = after.auth.method->0.exchange();
            let step = auth::sae_step(
                x.confirmed,
                x.h2e,
                x.hnp_fallback,
                auth_seq,
                status,
                payload,
            );
            step !is Hnp && step !is H2e
        }),
{
}

} // verus!
