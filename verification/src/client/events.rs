//! What nl80211 events make of the connection.

use vstd::prelude::*;

use crate::bytes;
use crate::client::associate::{security_ie, AssociateRequest};
use crate::client::authenticate;
use crate::client::authenticate::AuthStep;
use crate::client::handshake;
use crate::client::handshake::PortStep;
use crate::client::policy;
use crate::client::policy::WowlanTrigger;
use crate::client::state::{
    AuthSession, FtContext, Link, RoamEngine, ScanEngine, WifiIface, WifiState, WowlanState,
    RETRY_BACKOFF_INIT_SEC,
};
use crate::crypto::owe;
use crate::crypto::owe::OweAuth;
use crate::error::{ErrorKind, WifiError};
use crate::ieee80211::elements;
use crate::ieee80211::rrm::RRM_ACTION_CATEGORY;
use crate::ieee80211::wnm::WNM_ACTION_CATEGORY;
use crate::pmksa::PmksaEntry;
use crate::scan::SecurityType;
use crate::text;

verus! {

/// IEEE 802.11 status code 0.
pub const STATUS_SUCCESS: u16 = 0;

/// IEEE 802.11 status code 15: challenge failure.
pub const STATUS_CHALLENGE_FAIL: u16 = 15;

/// Length of the 802.11 management frame header before the body.
pub const MGMT_HDR_LEN: usize = 24;

/// What nl80211 reports.
#[derive(Debug, Clone)]
pub enum WifiEvent {
    /// A registered management frame.
    Frame(Vec<u8>),
    /// The AP answered an authentication request, with a status and possibly
    /// its authentication frame.
    Authenticated { status: u16, frame: Option<Vec<u8>> },
    /// The AP answered an association request.
    Associated { status: u16, ies: Option<Vec<u8>> },
    /// The result of a connect command.
    ConnectResult { status: u16 },
    /// An EAPOL frame of the control port.
    ControlPortFrame(Vec<u8>),
    /// The driver finished the 4-way handshake by itself.
    PortAuthorized,
    /// The device woke the host.
    WowlanWakeup(Vec<WowlanTrigger>),
    /// The connection quality monitor fired.
    CqmRssi,
    /// The kernel reports a disconnect, with the IEEE 802.11 reason code.
    Disconnect { reason: u16 },
    /// AP-initiated deauthentication or disassociation, with the IEEE 802.11
    /// reason code of its management frame.
    ApDisconnect { reason: u16 },
    /// AP-initiated disconnect without a reason: the kernel did not deliver a
    /// parseable management frame, or reports an un-protected deauth/disassoc
    /// (or the station-entry removal) when userspace drives the MLME.
    ApDisconnectNoReason,
    /// A scheduled scan stopped.
    SchedScanStopped,
    /// Anything else: scan progress, external authentication, other commands.
    Other,
}

/// The status of an authentication event: what the kernel says, and where it
/// says success or nothing, what the authentication frame says (after the
/// management header, its algorithm and its sequence number).
pub fn authentication_status(status: Option<u16>, frame: &Option<Vec<u8>>) -> (r: u16)
    ensures
        r == match (status, *frame) {
            (Some(code), _) if code != STATUS_SUCCESS => code,
            (_, Some(f)) if f@.len() >= MGMT_HDR_LEN + 6 => bytes::le16(
                f@[MGMT_HDR_LEN + 4],
                f@[MGMT_HDR_LEN + 5],
            ),
            _ => STATUS_SUCCESS,
        },
{
    if let Some(code) = status {
        if code != STATUS_SUCCESS {
            return code;
        }
    }
    match frame {
        Some(f) if f.len() >= MGMT_HDR_LEN + 6 => {
            bytes::read_le16(f.as_slice(), MGMT_HDR_LEN + 4)
        },
        _ => STATUS_SUCCESS,
    }
}

/// The event that a deauthentication or disassociation by the AP is; the
/// reason code follows the management header of its frame.
pub fn ap_disconnect_event(frame: &Option<Vec<u8>>) -> (r: WifiEvent)
    ensures
        match *frame {
            Some(f) if f@.len() >= MGMT_HDR_LEN + 2 => {
                &&& r matches WifiEvent::ApDisconnect { reason }
                &&& reason == bytes::le16(f@[MGMT_HDR_LEN as int], f@[MGMT_HDR_LEN + 1])
            },
            _ => r is ApDisconnectNoReason,
        },
{
    match frame {
        Some(f) if f.len() >= MGMT_HDR_LEN + 2 => WifiEvent::ApDisconnect {
            reason: bytes::read_le16(f.as_slice(), MGMT_HDR_LEN),
        },
        _ => WifiEvent::ApDisconnectNoReason,
    }
}

/// What an event asks for.
pub enum EventStep {
    /// Nothing to do. The state says whether the attempt failed.
    Nothing,
    /// Go on with SAE.
    Auth(AuthStep),
    /// Go on with EAPOL.
    Port(PortStep),
    /// Send this association request.
    Associate(AssociateRequest),
    /// The cached PMKID was rejected: drop the entry from the driver's cache
    /// and authenticate in full.
    FullAuth(Option<PmksaEntry>),
    /// The connection is established: arm WoWLAN where the network opted in.
    Connected,
    /// Clear the kernel's connection state.
    Disconnect,
    /// The device woke the host: clear its triggers, clear the kernel's
    /// connection state.
    Woken { disarm: bool, disconnect: bool },
    /// A WNM action frame, for the roaming engine.
    WnmFrame,
    /// An RRM action frame, for the roaming engine.
    RrmFrame,
    /// The target AP's FT Authentication response, for the roaming engine.
    FtAuthResponse,
    /// The target AP's FT (Re)Association response, for the roaming engine.
    FtAssocResponse,
    /// Record the mobility domain and the R0/R1 key holders of the
    /// association response and derive the FT key hierarchy.
    SetupFt,
    /// The signal crossed the roam threshold, for the roaming engine.
    CqmRssi,
}

/// The name of an IEEE 802.11 status code, as `wl_nl80211` prints it.
pub uninterp spec fn status_name(status: u16) -> Seq<char>;

/// `Ieee80211StatusCode::from(u16)` and its `Display`: the text is a function
/// of the code alone. Which text a code has is not stated.
#[verifier::external_body]
fn status_text(status: u16) -> (r: String)
    ensures
        r@ == status_name(status),
{
    wl_nl80211::Ieee80211StatusCode::from(status).to_string()
}

/// The error reported to callers when the AP refuses SAE with a status,
/// without a frame; `name` is the status in words.
pub fn sae_refusal(status: u16, name: &str) -> (e: WifiError)
    ensures
        if status == STATUS_CHALLENGE_FAIL {
            e.is(ErrorKind::WrongPassword, "wrong password (SAE confirm rejected by AP)"@)
        } else {
            e.is(ErrorKind::AuthFailed, "SAE authentication failed: status="@ + name@)
        },
{
    if status == STATUS_CHALLENGE_FAIL {
        WifiError::new(ErrorKind::WrongPassword, "wrong password (SAE confirm rejected by AP)")
    } else {
        let msg = text::text2("SAE authentication failed: status=", name);
        WifiError::new(ErrorKind::AuthFailed, msg.as_str())
    }
}

impl Link {
    /// The elements of an association request after open-system
    /// authentication, but for OWE; none where the MDIE of an FT association
    /// is not known.
    pub open spec fn open_system_ie(self) -> Option<Seq<u8>> {
        match self.bss_info.security {
            SecurityType::Wpa2Psk
            | SecurityType::Wpa2PskSha256
            | SecurityType::Wpa2Ent
            | SecurityType::Wpa2EntSha256 => Some(self.rsne(None)),
            SecurityType::FtPsk => match self.mdie_octets() {
                Some(m) => Some(self.rsne(None) + m),
                None => None,
            },
            _ => Some(Seq::empty()),
        }
    }

    /// Whether an association after open-system authentication requires
    /// management frame protection. PMF is negotiated as optional for WPA2
    /// (MFPC in the RSNE); when the AP supports it, it is requested - the
    /// kernel's ASSOCIATE command only takes REQUIRED or none. It is mandatory
    /// for the SHA-256 enterprise AKM.
    pub open spec fn open_system_mfp(self) -> bool {
        match self.bss_info.security {
            SecurityType::Wpa2Psk
            | SecurityType::Wpa2PskSha256
            | SecurityType::Wpa2Ent
            | SecurityType::FtPsk => elements::advertises(
                self.bss_info.ap_rsne@,
                elements::CAP_MFPC,
            ),
            SecurityType::Wpa2EntSha256 => true,
            _ => false,
        }
    }
}

/// Whether authentication events of a security mode carry SAE frames.
pub open spec fn has_sae_frames(security: SecurityType) -> bool {
    security.spec_is_sae()
}

impl WifiIface {
    /// Open-system authentication succeeded: associate with the elements of
    /// the security mode. OWE associates with the DH element of a fresh
    /// exchange; where the system gives no randomness for it, the attempt
    /// fails.
    pub fn associate_open_system(&mut self) -> (r: EventStep)
        requires
            old(self).wf(),
        ensures
            final(self).wf(),
            open_system_outcome(*old(self), *final(self), r),
    {
        if self.link.bss_info.security == SecurityType::Owe {
            return match OweAuth::new() {
                Ok(exchange) => EventStep::Associate(self.associate_owe(exchange)),
                Err(_) => {
                    self.state = WifiState::Failed;
                    EventStep::Nothing
                },
            };
        }
        let cipher = self.link.bss_info.group_mgmt_cipher;
        let (ie, mfp) = match self.link.bss_info.security {
            SecurityType::Wpa2Psk => (
                elements::wpa2_psk_ie_cipher(cipher),
                self.link.bss_info.ap_mfp_capable(),
            ),
            // WPA2-PSK-SHA256 (AKM 6): same association shape as WPA2-PSK,
            // different RSNE.
            SecurityType::Wpa2PskSha256 => (
                elements::wpa2_psk_sha256_ie_cipher(cipher),
                self.link.bss_info.ap_mfp_capable(),
            ),
            // WPA2-Enterprise (AKM 1): open-system auth, associate, then run
            // EAP over the control port.
            SecurityType::Wpa2Ent => (
                elements::wpa2_ent_ie_cipher(cipher),
                self.link.bss_info.ap_mfp_capable(),
            ),
            SecurityType::Wpa2EntSha256 => (elements::wpa2_ent_sha256_ie_cipher(cipher), true),
            // FT-PSK: associate with the FT-PSK RSNE and the MDIE.
            SecurityType::FtPsk => {
                let rsne = elements::ft_psk_ie_cipher(None, cipher);
                match self.link.append_ft_mdie(rsne) {
                    Some(ies) => (ies, self.link.bss_info.ap_mfp_capable()),
                    None => {
                        self.state = WifiState::Failed;
                        return EventStep::Nothing;
                    },
                }
            },
            // Plain open: associate without elements.
            _ => (Vec::new(), false),
        };
        EventStep::Associate(self.link.associate(ie, mfp, false))
    }

    /// Associate with the DH element of an OWE exchange.
    pub fn associate_owe(&mut self, exchange: OweAuth) -> (r: AssociateRequest)
        requires
            old(self).wf(),
            exchange.wf(),
        ensures
            final(self).wf(),
            owe_associated(*old(self), *final(self), exchange, r),
    {
        let mut ie = elements::owe_ie_cipher(self.link.bss_info.group_mgmt_cipher);
        let dh = exchange.build_dh_element();
        bytes::append(&mut ie, dh.as_slice());
        self.auth.owe = Some(exchange);
        self.link.associate(ie, true, false)
    }

    /// The AP answered an authentication request.
    fn on_authenticated(&mut self, status: u16, frame: &Option<Vec<u8>>) -> (r: EventStep)
        requires
            old(self).wf(),
        ensures
            final(self).wf(),
            authenticated_outcome(*old(self), *final(self), status, *frame, r),
    {
        if self.roam.ft_roam {
            return EventStep::FtAuthResponse;
        }
        if self.link.pmksa_in_use.is_some() {
            // PMKSA caching: the open-system authentication already
            // succeeded; associate with the cached PMKID in the RSNE. An AP
            // without the matching PMKSA rejects the association, which
            // triggers the full-auth fallback.
            if status == STATUS_SUCCESS {
                if let Some(req) = self.associate_with_pmksa() {
                    return EventStep::Associate(req);
                }
            }
            return EventStep::FullAuth(self.pmksa_fallback());
        }
        if !self.link.bss_info.security.is_sae() {
            // Open-system auth: no frame, just a status.
            if status == STATUS_SUCCESS {
                return self.associate_open_system();
            }
            self.state = WifiState::Failed;
            return EventStep::Nothing;
        }
        if let Some(frame) = frame {
            // SAE: the auth frame carries the AP's commit (transaction 1) or
            // confirm (transaction 2).
            return EventStep::Auth(self.handle_auth_frame(frame.as_slice()));
        }
        if status != STATUS_SUCCESS {
            let name = status_text(status);
            let e = sae_refusal(status, name.as_str());
            self.fail_auth(e);
        }
        EventStep::Nothing
    }

    /// The AP answered an association request.
    fn on_associated(&mut self, status: u16, ies: &Option<Vec<u8>>) -> (r: EventStep)
        requires
            old(self).wf(),
        ensures
            final(self).wf(),
            associated_outcome(*old(self), *final(self), status, *ies, r),
    {
        if self.roam.ft_roam {
            // FT roam: on failure the old AP is already disconnected
            // (CMD_AUTHENTICATE did that), so the retry loop reconnects.
            if status == STATUS_SUCCESS {
                return EventStep::FtAssocResponse;
            }
            self.roam.ft_roam = false;
            self.state = WifiState::Failed;
            return EventStep::Nothing;
        }
        if status != STATUS_SUCCESS {
            // The AP rejected the association with the cached PMKID (no
            // matching PMKSA on the AP side): fall back to full authentication
            // right away.
            if self.link.pmksa_in_use.is_some() {
                return EventStep::FullAuth(self.pmksa_fallback());
            }
            self.state = WifiState::Failed;
            return EventStep::Nothing;
        }
        if self.link.bss_info.security == SecurityType::Open {
            self.established();
            return EventStep::Connected;
        }
        if self.link.bss_info.security == SecurityType::Owe {
            let ies = match ies {
                Some(ies) => Some(ies.as_slice()),
                None => None,
            };
            if !self.process_owe_assoc_response(ies) {
                self.state = WifiState::Failed;
            }
            return EventStep::Nothing;
        }
        if self.link.bss_info.security.is_ft() {
            return EventStep::SetupFt;
        }
        EventStep::Nothing
    }

    /// The connection is ready without a key handshake of ours.
    fn established(&mut self)
        requires
            old(self).wf(),
        ensures
            final(self).wf(),
            *final(self) == old(self).spec_established(),
    {
        self.scan.scan_retry_interval = RETRY_BACKOFF_INIT_SEC;
        self.state = WifiState::ConnectedWithoutOffloadRekey;
    }

    /// This interface with the connection ready.
    pub open spec fn spec_established(self) -> WifiIface {
        WifiIface {
            scan: ScanEngine { scan_retry_interval: RETRY_BACKOFF_INIT_SEC, ..self.scan },
            state: WifiState::ConnectedWithoutOffloadRekey,
            ..self
        }
    }

    /// The FT key hierarchy was derived after an association with an FT AKM,
    /// or could not be (none). A Message 1 that raced ahead of the association
    /// event is fed now.
    pub fn ft_context_ready(&mut self, context: Option<FtContext>) -> (r: PortStep)
        requires
            old(self).wf(),
        ensures
            final(self).wf(),
            match context {
                None => {
                    &&& r is Nothing
                    &&& *final(self) == (WifiIface { state: WifiState::Failed, ..*old(self) })
                },
                Some(ft) => {
                    let ready = WifiIface {
                        link: Link { ft: Some(ft), pending_ft_msg1: None, ..old(self).link },
                        ..*old(self)
                    };
                    match old(self).link.pending_ft_msg1 {
                        Some(frame) => handshake::control_port_outcome(ready, *final(self), frame@, r),
                        None => r is Nothing && *final(self) == ready,
                    }
                },
            },
    {
        match context {
            None => {
                self.state = WifiState::Failed;
                PortStep::Nothing
            },
            Some(ft) => {
                self.link.ft = Some(ft);
                match self.link.pending_ft_msg1.take() {
                    Some(frame) => self.handle_control_port_frame(frame.as_slice()),
                    None => PortStep::Nothing,
                }
            },
        }
    }

    /// An AP-initiated disconnect (deauth/disassoc, protected or not) during a
    /// connection attempt or while connected: schedule a reconnect. Returns
    /// whether the kernel connection state has to be cleaned up: for a
    /// socket-owned connection the kernel keeps it until userspace cleans up,
    /// and rejects the next ASSOCIATE otherwise.
    ///
    /// Reason codes 2 and 23 mean the AP no longer accepts the current
    /// credentials/PMKSA - retrying soon is futile, so the client backs off
    /// for the long authentication-retry interval. Every other reason is
    /// transient. `None` means no reason was available; it is transient.
    ///
    /// During an FT roam these events are the expected consequence of
    /// disconnecting the old AP. An initial WPA2-PSK handshake also counts as
    /// a credential failure: the passphrase is only verified by that
    /// handshake. Stale events in every other state are ignored: the kernel
    /// delivers the same disconnect as several events with a long delay
    /// between them, and acting on a stale one would tear down the
    /// reconnection already in flight.
    pub fn handle_ap_disconnect(&mut self, reason: Option<u16>) -> (r: bool)
        requires
            old(self).wf(),
        ensures
            final(self).wf(),
            ap_disconnect_outcome(*old(self), *final(self), reason, r),
    {
        if self.roam.ft_roam {
            return false;
        }
        if self.state.is_connected() {
            if policy::is_fatal_disconnect_reason(reason) {
                let e = policy::fatal_disconnect_error(reason);
                self.fail_auth(e);
            } else {
                self.state = WifiState::Failed;
            }
            return true;
        }
        if self.state == WifiState::Authenticating && self.is_psk_4way_in_progress() {
            let e = WifiError::wrong_password(self.link.network.ssid.as_str());
            self.fail_auth(e);
            return true;
        }
        false
    }

    /// The device woke the host while it was suspended. Clear the per-suspend
    /// triggers (they stay armed while connected, and must not fire again
    /// before the next connection), and when the wake means the connection is
    /// no longer trustworthy (GTK rekey failure / disconnect) tear it down so
    /// the retry loop rebuilds it. Returns whether the triggers and whether
    /// the kernel connection state have to be cleared.
    pub fn handle_wowlan_wakeup(&mut self, reasons: &[WowlanTrigger]) -> (r: (bool, bool))
        requires
            old(self).wf(),
        ensures
            final(self).wf(),
            r.0 == old(self).wowlan.armed,
            r.1 == (old(self).state.spec_is_connected() && policy::breaks_connection(reasons@)),
            *final(self) == (WifiIface {
                wowlan: WowlanState { armed: false },
                state: if r.1 {
                    WifiState::Failed
                } else {
                    old(self).state
                },
                ..*old(self)
            }),
    {
        let disarm = self.disarm_wowlan();
        if !self.state.is_connected() {
            return (disarm, false);
        }
        if policy::wowlan_wakeup_requires_reconnect(reasons) {
            self.state = WifiState::Failed;
            return (disarm, true);
        }
        (disarm, false)
    }

    /// The kernel reports a disconnect. cfg80211-style drivers report the
    /// AP-initiated disconnect this way with the same IEEE 802.11 reason code;
    /// it is classified like the deauth/disassoc events. The kernel can trail
    /// it behind the deauth/disassoc event (or a previous disconnect) by
    /// seconds; acting on a stale one would tear down the reconnection already
    /// in flight, and would downgrade a fatal backoff back to a short one.
    fn on_disconnect(&mut self, reason: u16) -> (r: bool)
        requires
            old(self).wf(),
        ensures
            final(self).wf(),
            ap_disconnect_outcome(*old(self), *final(self), Some(reason), r),
    {
        if !self.roam.ft_roam && (self.state.is_connected() || (self.state
            == WifiState::Authenticating && self.is_psk_4way_in_progress())) {
            return self.handle_ap_disconnect(Some(reason));
        }
        false
    }

    /// Act on an event.
    pub fn handle_event(&mut self, event: &WifiEvent) -> (r: EventStep)
        requires
            old(self).wf(),
        ensures
            final(self).wf(),
            event_outcome(*old(self), *final(self), *event, r),
    {
        match event {
            WifiEvent::Frame(frame) => {
                // Registered management frames: SAE auth frames during
                // authentication, and action frames while connected.
                if frame.len() > MGMT_HDR_LEN && frame[MGMT_HDR_LEN] == WNM_ACTION_CATEGORY {
                    EventStep::WnmFrame
                } else if frame.len() > MGMT_HDR_LEN && frame[MGMT_HDR_LEN]
                    == RRM_ACTION_CATEGORY {
                    EventStep::RrmFrame
                } else {
                    EventStep::Auth(self.handle_auth_frame(frame.as_slice()))
                }
            },
            WifiEvent::Authenticated { status, frame } => self.on_authenticated(*status, frame),
            WifiEvent::Associated { status, ies } => self.on_associated(*status, ies),
            WifiEvent::ConnectResult { status } => {
                if *status != STATUS_SUCCESS {
                    self.state = WifiState::Failed;
                }
                EventStep::Nothing
            },
            WifiEvent::ControlPortFrame(frame) => EventStep::Port(
                self.handle_control_port_frame(frame.as_slice()),
            ),
            WifiEvent::PortAuthorized => {
                self.established();
                EventStep::Connected
            },
            WifiEvent::WowlanWakeup(reasons) => {
                let (disarm, disconnect) = self.handle_wowlan_wakeup(reasons.as_slice());
                EventStep::Woken { disarm, disconnect }
            },
            WifiEvent::CqmRssi => EventStep::CqmRssi,
            WifiEvent::Disconnect { reason } => if self.on_disconnect(*reason) {
                EventStep::Disconnect
            } else {
                EventStep::Nothing
            },
            WifiEvent::ApDisconnect { reason } => if self.handle_ap_disconnect(Some(*reason)) {
                EventStep::Disconnect
            } else {
                EventStep::Nothing
            },
            WifiEvent::ApDisconnectNoReason => if self.handle_ap_disconnect(None) {
                EventStep::Disconnect
            } else {
                EventStep::Nothing
            },
            WifiEvent::SchedScanStopped => {
                // Consume the echo of our own stop request when it lands
                // outside of the wait for scan results.
                self.scan.sched_scan_stop_pending = false;
                EventStep::Nothing
            },
            WifiEvent::Other => EventStep::Nothing,
        }
    }
}

/// Whether `after` and `r` are an association with the DH element of an OWE
/// exchange.
pub open spec fn owe_associated(
    before: WifiIface,
    after: WifiIface,
    exchange: OweAuth,
    r: AssociateRequest,
) -> bool {
    &&& before.link.is_request(
        r,
        security_ie(SecurityType::Owe, None, before.link.bss_info.group_mgmt_cipher)
            + owe::dh_element(exchange.our_pubkey_raw@),
        true,
        false,
    )
    &&& after == (WifiIface {
        auth: AuthSession { owe: Some(exchange), ..before.auth },
        ..before
    })
}

/// Whether `after` and `r` are what follows a successful open-system
/// authentication.
pub open spec fn open_system_outcome(before: WifiIface, after: WifiIface, r: EventStep) -> bool {
    let failed = WifiIface { state: WifiState::Failed, ..before };
    if before.link.bss_info.security == SecurityType::Owe {
        match r {
            EventStep::Associate(req) => {
                &&& after.auth.owe matches Some(exchange)
                &&& exchange.wf()
                &&& exchange.pmk is None
                &&& exchange.pmkid is None
                &&& owe_associated(before, after, exchange, req)
            },
            // The system gave no randomness.
            _ => r is Nothing && after == failed,
        }
    } else {
        match before.link.open_system_ie() {
            Some(ie) => {
                &&& r matches EventStep::Associate(req)
                &&& before.link.is_request(req, ie, before.link.open_system_mfp(), false)
                &&& after == before
            },
            None => r is Nothing && after == failed,
        }
    }
}

/// Whether `after` and `r` are a fallback to full authentication from
/// `before`.
pub open spec fn fell_back(before: WifiIface, after: WifiIface, r: EventStep) -> bool {
    &&& r == EventStep::FullAuth(before.link.pmksa_in_use)
    &&& after == (WifiIface {
        link: Link { pmksa_in_use: None, ..before.link },
        pmksa_cache: after.pmksa_cache,
        ..before
    })
    &&& after.pmksa_cache@ == match before.link.pmksa_in_use {
        Some(e) => before.pmksa_cache@.remove((e.ssid@, e.bssid@)),
        None => before.pmksa_cache@,
    }
}

/// Whether `after` and `r` are what the AP's answer to an authentication
/// request makes of `before`.
pub open spec fn authenticated_outcome(
    before: WifiIface,
    after: WifiIface,
    status: u16,
    frame: Option<Vec<u8>>,
    r: EventStep,
) -> bool {
    if before.roam.ft_roam {
        r is FtAuthResponse && after == before
    } else if before.link.pmksa_in_use is Some {
        if status == STATUS_SUCCESS {
            &&& r matches EventStep::Associate(req)
            &&& before.link.is_request(
                req,
                before.link.rsne(Some(before.link.pmksa_in_use->0.pmkid)),
                before.link.cached_mfp(),
                true,
            )
            &&& after == before
        } else {
            fell_back(before, after, r)
        }
    } else if !has_sae_frames(before.link.bss_info.security) {
        if status == STATUS_SUCCESS {
            open_system_outcome(before, after, r)
        } else {
            r is Nothing && after == (WifiIface { state: WifiState::Failed, ..before })
        }
    } else if frame is Some {
        r matches EventStep::Auth(step) && auth_frame_handled(before, after, frame->0@, step)
    } else if status != STATUS_SUCCESS {
        &&& r is Nothing
        &&& after.last_error matches Some(e)
        &&& if status == STATUS_CHALLENGE_FAIL {
            e.is(ErrorKind::WrongPassword, "wrong password (SAE confirm rejected by AP)"@)
        } else {
            e.is(
                ErrorKind::AuthFailed,
                "SAE authentication failed: status="@ + status_name(status),
            )
        }
        &&& after.auth_failed(before, before.auth, e)
    } else {
        r is Nothing && after == before
    }
}

/// Whether `after` and `step` are what a frame of the SAE exchange makes of
/// `before`: only frames from the AP we are authenticating with belong to it.
pub open spec fn auth_frame_handled(
    before: WifiIface,
    after: WifiIface,
    frame: Seq<u8>,
    step: AuthStep,
) -> bool {
    if before.takes_auth_frame(frame) {
        authenticate::auth_frame_outcome(before, after, frame, step)
    } else {
        step is Nothing && after == before
    }
}

/// Whether `after` and `r` are what the AP's answer to an association request
/// makes of `before`.
pub open spec fn associated_outcome(
    before: WifiIface,
    after: WifiIface,
    status: u16,
    ies: Option<Vec<u8>>,
    r: EventStep,
) -> bool {
    let security = before.link.bss_info.security;
    let failed = WifiIface { state: WifiState::Failed, ..before };
    if before.roam.ft_roam {
        if status == STATUS_SUCCESS {
            r is FtAssocResponse && after == before
        } else {
            r is Nothing && after == (WifiIface {
                roam: RoamEngine { ft_roam: false, ..before.roam },
                ..failed
            })
        }
    } else if status != STATUS_SUCCESS {
        if before.link.pmksa_in_use is Some {
            fell_back(before, after, r)
        } else {
            r is Nothing && after == failed
        }
    } else if security == SecurityType::Open {
        r is Connected && after == before.spec_established()
    } else if security == SecurityType::Owe {
        let octets = match ies {
            Some(v) => Some(v@),
            None => None,
        };
        &&& r is Nothing
        &&& match before.owe_dh(octets) {
            Some(dh) => {
                &&& after.auth.owe matches Some(exchange)
                &&& exchange.derives(before.auth.owe->0, dh)
                &&& after == (WifiIface {
                    auth: AuthSession { owe: Some(exchange), ..before.auth },
                    ..before
                })
            },
            None => after == failed,
        }
    } else if security.spec_is_ft() {
        r is SetupFt && after == before
    } else {
        r is Nothing && after == before
    }
}

/// Whether `after` and `disconnect` are what an AP-initiated disconnect makes
/// of `before`.
pub open spec fn ap_disconnect_outcome(
    before: WifiIface,
    after: WifiIface,
    reason: Option<u16>,
    disconnect: bool,
) -> bool {
    if before.roam.ft_roam {
        !disconnect && after == before
    } else if before.state.spec_is_connected() {
        &&& disconnect
        &&& if policy::is_fatal(reason) {
            &&& after.last_error matches Some(e)
            &&& policy::is_fatal_error(e, reason)
            &&& after.auth_failed(before, before.auth, e)
        } else {
            after == (WifiIface { state: WifiState::Failed, ..before })
        }
    } else if before.state == WifiState::Authenticating && before.psk_4way() {
        &&& disconnect
        &&& after.last_error matches Some(e)
        &&& e.is(
            ErrorKind::WrongPassword,
            "wrong password for SSID '"@ + before.link.network.ssid@ + "'"@,
        )
        &&& after.auth_failed(before, before.auth, e)
    } else {
        !disconnect && after == before
    }
}

/// Whether `r` is the step for a disconnect that was acted on or not.
pub open spec fn is_disconnect_step(r: EventStep, disconnect: bool) -> bool {
    if disconnect {
        r is Disconnect
    } else {
        r is Nothing
    }
}

/// Whether `after` and `r` are what an event makes of `before`.
pub open spec fn event_outcome(
    before: WifiIface,
    after: WifiIface,
    event: WifiEvent,
    r: EventStep,
) -> bool {
    match event {
        WifiEvent::Frame(frame) => if frame@.len() > MGMT_HDR_LEN && frame@[24]
            == WNM_ACTION_CATEGORY {
            r is WnmFrame && after == before
        } else if frame@.len() > MGMT_HDR_LEN && frame@[24] == RRM_ACTION_CATEGORY {
            r is RrmFrame && after == before
        } else {
            r matches EventStep::Auth(step) && auth_frame_handled(before, after, frame@, step)
        },
        WifiEvent::Authenticated { status, frame } => authenticated_outcome(
            before,
            after,
            status,
            frame,
            r,
        ),
        WifiEvent::Associated { status, ies } => associated_outcome(before, after, status, ies, r),
        WifiEvent::ConnectResult { status } => {
            &&& r is Nothing
            &&& after == if status == STATUS_SUCCESS {
                before
            } else {
                WifiIface { state: WifiState::Failed, ..before }
            }
        },
        WifiEvent::ControlPortFrame(frame) => r matches EventStep::Port(step)
            && handshake::control_port_outcome(before, after, frame@, step),
        WifiEvent::PortAuthorized => r is Connected && after == before.spec_established(),
        WifiEvent::WowlanWakeup(reasons) => {
            let disconnect = before.state.spec_is_connected() && policy::breaks_connection(
                reasons@,
            );
            &&& r == (EventStep::Woken { disarm: before.wowlan.armed, disconnect })
            &&& after == (WifiIface {
                wowlan: WowlanState { armed: false },
                state: if disconnect {
                    WifiState::Failed
                } else {
                    before.state
                },
                ..before
            })
        },
        WifiEvent::CqmRssi => r is CqmRssi && after == before,
        WifiEvent::Disconnect { reason } | WifiEvent::ApDisconnect { reason } => {
            ap_disconnect_outcome(before, after, Some(reason), r is Disconnect)
                && is_disconnect_step(r, r is Disconnect)
        },
        WifiEvent::ApDisconnectNoReason => {
            ap_disconnect_outcome(before, after, None, r is Disconnect) && is_disconnect_step(
                r,
                r is Disconnect,
            )
        },
        WifiEvent::SchedScanStopped => {
            &&& r is Nothing
            &&& after == (WifiIface {
                scan: ScanEngine { sched_scan_stop_pending: false, ..before.scan },
                ..before
            })
        },
        WifiEvent::Other => r is Nothing && after == before,
    }
}

/// An event that comes after the connection was given up, or before it was
/// there, does not tear down what is in flight: outside of a connection and of
/// an initial PSK handshake, no disconnect report changes anything.
pub proof fn law_stale_disconnects_are_ignored(
    before: WifiIface,
    after: WifiIface,
    event: WifiEvent,
    r: EventStep,
)
    requires
        event is Disconnect || event is ApDisconnect || event is ApDisconnectNoReason,
        !before.state.spec_is_connected(),
        !(before.state == WifiState::Authenticating && before.psk_4way()),
        event_outcome(before, after, event, r),
    ensures
        r is Nothing && after == before,
{
}

/// During an FT roam no disconnect report changes anything.
pub proof fn law_ft_roam_survives_disconnects(
    before: WifiIface,
    after: WifiIface,
    event: WifiEvent,
    r: EventStep,
)
    requires
        event is Disconnect || event is ApDisconnect || event is ApDisconnectNoReason,
        before.roam.ft_roam,
        event_outcome(before, after, event, r),
    ensures
        r is Nothing && after == before,
{
}

/// While connected, a disconnect by the AP leads to the long authentication
/// backoff with a recorded error exactly where its reason is fatal, and to the
/// short backoff otherwise.
pub proof fn law_fatal_reasons_back_off_long(
    before: WifiIface,
    after: WifiIface,
    reason: u16,
    r: EventStep,
)
    requires
        before.state.spec_is_connected(),
        !before.roam.ft_roam,
        event_outcome(before, after, WifiEvent::ApDisconnect { reason }, r),
    ensures
        after.state == WifiState::FailedAuthentication <==> reason == 2 || reason == 23,
        after.state == WifiState::Failed <==> !(reason == 2 || reason == 23),
        reason == 2 || reason == 23 ==> after.last_error is Some,
{
}

} // verus!
