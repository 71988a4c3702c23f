//! Authentication method abstraction.
//!
//! The connection flow only knows [`AuthMethod`]: build the initial
//! AUTHENTICATE payload, feed in incoming authentication frames, and collect
//! PMK/PMKID once authenticated. SAE (WPA3-Personal) is the one method with a
//! pre-association exchange; WPA2-PSK derives its PMK from the passphrase and
//! EAP/802.1X runs after the association.

use vstd::prelude::*;
use vstd::string::*;

use crate::bytes;
use crate::crypto::sae;
use crate::crypto::sae::SaeAuth;
use crate::error::{ErrorKind, WifiError};
use crate::text;

verus! {

/// IEEE 802.11 status code 127: SAE-PK required.
pub const SAE_STATUS_SAE_PK: u16 = 127;

/// What the client should do after processing an authentication frame.
#[derive(Debug, Clone, PartialEq, Eq)]
pub enum AuthAction {
    /// Keep waiting for more authentication frames.
    Continue,
    /// Send this confirmation frame back to the AP.
    SendConfirm(Vec<u8>),
    /// The AP demanded an anti-clogging token (status 76): re-send the SAE
    /// commit with the carried token bytes.
    SendCommitWithToken(Vec<u8>),
    /// The H2E commit was rejected (e.g. by an HnP-only AP) and the network
    /// allows it: restart the SAE exchange with hunting-and-pecking.
    RetryWithHnp,
    /// The hunting-and-pecking commit was rejected (e.g. by an H2E-only AP
    /// whose RSNXE did not say so) and the network allows it: restart the SAE
    /// exchange with hash-to-element.
    RetryWithH2e,
    /// The AP rejected the SAE commit with a transient status (e.g. 30
    /// "refused temporarily"). Per 802.11-2020 §12.4.8.6.4 (Committed state)
    /// the rejection is silently discarded and the commit is retransmitted on
    /// the SAE retransmission timer; only after the Sync counter is exhausted
    /// does the instance give up and the client restart the connection on the
    /// short backoff.
    RetryTemporarily,
    /// Authentication succeeded; proceed to association.
    Complete,
}

/// What an SAE frame asks for.
pub enum SaeStep {
    /// Nothing: the frame is a retransmission or of no known transaction.
    Ignore,
    /// The commit again, with the token in the payload.
    Token,
    /// The exchange cannot go on: the message says why.
    Refused(Seq<char>),
    /// The same commit again, on the retransmission timer.
    Temporary,
    /// The exchange again, with hunting-and-pecking.
    Hnp,
    /// The exchange again, with hash-to-element.
    H2e,
    /// The AP's commit.
    Commit,
    /// The AP's confirm.
    Confirm,
}

/// Statuses an AP uses to refuse authentication/association temporarily.
pub open spec fn temporary_reject(status: u16) -> bool {
    status == 17 || status == 30 || 32 <= status <= 35
}

/// What an SAE frame asks for of an exchange that is confirmed or not, uses
/// hash-to-element or not, and may fall back to the other method or not.
pub open spec fn sae_step(
    confirmed: bool,
    h2e: bool,
    hnp_fallback: bool,
    auth_seq: u16,
    status: u16,
    payload: Seq<u8>,
) -> SaeStep {
    if confirmed {
        SaeStep::Ignore
    } else if auth_seq == 1 && status == sae::SAE_STATUS_ANTI_CLOGGING {
        SaeStep::Token
    } else if auth_seq == 1 && status == sae::SAE_STATUS_UNKNOWN_PASSWORD_IDENTIFIER {
        SaeStep::Refused("SAE auth failed: unknown password identifier"@)
    } else if auth_seq == 1 && status == SAE_STATUS_SAE_PK {
        SaeStep::Refused("SAE-PK required by AP but shuli does not implement SAE-PK"@)
    } else if auth_seq == 1 && temporary_reject(status) {
        SaeStep::Temporary
    } else if status != 0 && !(auth_seq == 1 && status == sae::SAE_STATUS_H2E) {
        if auth_seq == 1 && hnp_fallback {
            if h2e {
                SaeStep::Hnp
            } else {
                SaeStep::H2e
            }
        } else {
            SaeStep::Refused(
                "SAE auth failed: seq="@ + text::dec(auth_seq as nat) + " status="@ + text::dec(
                    status as nat,
                ),
            )
        }
    } else if auth_seq == 1 {
        if payload.len() < 98 {
            SaeStep::Refused("SAE commit too short: "@ + text::dec(payload.len()) + " bytes"@)
        } else if bytes::le16(payload[0], payload[1]) != sae::SAE_GROUP19_ID {
            SaeStep::Refused(
                "unsupported SAE group "@ + text::dec(bytes::le16(payload[0], payload[1]) as nat),
            )
        } else {
            SaeStep::Commit
        }
    } else if auth_seq == 2 {
        SaeStep::Confirm
    } else {
        SaeStep::Ignore
    }
}

/// Statuses an AP uses to refuse authentication/association temporarily; the
/// client should retry after a short backoff instead of treating them as
/// fatal credential failures: 17 (AP unable to handle additional STAs), 30
/// (refused temporarily / association rejected temporarily), 32 (unspecified
/// QoS failure), 33 (denied due to insufficient bandwidth), 34 (denied due to
/// poor channel conditions), 35 (denied because QoS is not supported).
pub fn is_temporary_reject_status(status: u16) -> (r: bool)
    ensures
        r == temporary_reject(status),
{
    matches!(status, 17 | 30 | 32 | 33 | 34 | 35)
}

/// An authentication failure.
fn auth_failed(msg: &str) -> (e: WifiError)
    ensures
        e.is(ErrorKind::AuthFailed, msg@),
{
    WifiError::new(ErrorKind::AuthFailed, msg)
}

/// Whether `after` and `r` are what processing an SAE frame makes of the
/// exchange `before`.
pub open spec fn frame_outcome(
    after: SaeAuth,
    before: SaeAuth,
    auth_seq: u16,
    status: u16,
    payload: Seq<u8>,
    r: Result<AuthAction, WifiError>,
) -> bool {
    match sae_step(
        before.confirmed,
        before.h2e,
        before.hnp_fallback,
        auth_seq,
        status,
        payload,
    ) {
        SaeStep::Ignore => r matches Ok(AuthAction::Continue) && after == before,
        SaeStep::Token => {
            &&& after == before
            &&& match sae::token_of(before.h2e, payload) {
                Ok(token) => r matches Ok(AuthAction::SendCommitWithToken(t)) && t@ == token,
                Err(msg) => r matches Err(e) && e.is(ErrorKind::SaeFailed, msg),
            }
        },
        SaeStep::Refused(msg) => {
            &&& r matches Err(e)
            &&& e.is(ErrorKind::AuthFailed, msg)
            &&& after == before
        },
        SaeStep::Temporary => r matches Ok(AuthAction::RetryTemporarily) && after
            == before,
        SaeStep::Hnp => r matches Ok(AuthAction::RetryWithHnp) && after == before,
        SaeStep::H2e => r matches Ok(AuthAction::RetryWithH2e) && after == before,
        SaeStep::Commit => {
            let scalar = payload.subrange(2, 34);
            let elem = payload.subrange(34, 98);
            match before.commit_error(scalar, elem) {
                None => {
                    &&& r matches Ok(AuthAction::SendConfirm(confirm))
                    &&& after.derived(before, scalar, elem)
                    &&& confirm@ == after.own_confirm(scalar, elem)
                    &&& confirm@.len() == 32
                },
                Some(msg) => {
                    &&& r matches Err(e)
                    &&& e.is(ErrorKind::SaeFailed, msg)
                    &&& after == before
                },
            }
        },
        SaeStep::Confirm => match before.confirm_error(payload) {
            None => {
                &&& r matches Ok(AuthAction::Complete)
                &&& after == (SaeAuth { confirmed: true, ..before })
            },
            Some(msg) => {
                &&& r matches Err(e)
                &&& e.is(ErrorKind::SaeFailed, msg)
                &&& after == before
            },
        },
    }
}

/// SAE exchange: commit (transaction 1) then confirm (transaction 2).
pub fn process_sae_frame(exchange: &mut SaeAuth, auth_seq: u16, status: u16, payload: &[u8]) -> (r:
    Result<AuthAction, WifiError>)
    requires
        old(exchange).wf(),
    ensures
        final(exchange).wf(),
        frame_outcome(*final(exchange), *old(exchange), auth_seq, status, payload@, r),
{
    // Once SAE has completed we may already have sent ASSOCIATE; ignore any
    // further (retransmitted) SAE frames instead of re-firing association.
    if exchange.confirmed() {
        return Ok(AuthAction::Continue);
    }
    // Anti-clogging token required (status 76): re-send the commit with the
    // token, which sits after the group in the payload (in the Anti-Clogging
    // Token Container element for H2E).
    if auth_seq == 1 && status == sae::SAE_STATUS_ANTI_CLOGGING {
        return match sae::parse_anti_clogging_token(exchange.is_h2e(), payload) {
            Ok(token) => Ok(AuthAction::SendCommitWithToken(token)),
            Err(e) => Err(e),
        };
    }
    // Status 123 = unknown password identifier (missing or wrong). Fail
    // cleanly instead of retrying: the identifier is in every commit when
    // configured, so a 123 here means the AP does not accept our identifier.
    if auth_seq == 1 && status == sae::SAE_STATUS_UNKNOWN_PASSWORD_IDENTIFIER {
        return Err(auth_failed("SAE auth failed: unknown password identifier"));
    }
    // Status 127 = SAE-PK required. The SAE-PK crypto (PWE + ECDSA confirm
    // signature) is not implemented, so fail cleanly instead of looping with
    // regular SAE.
    if auth_seq == 1 && status == SAE_STATUS_SAE_PK {
        return Err(auth_failed("SAE-PK required by AP but shuli does not implement SAE-PK"));
    }
    // Some APs answer the SAE commit with a status that only means "try again
    // shortly". 802.11-2020 §12.4.8.6.4: "If the Status is some other nonzero
    // value, the frame shall be silently discarded and the t0
    // (retransmission) timer shall be set".
    if auth_seq == 1 && is_temporary_reject_status(status) {
        return Ok(AuthAction::RetryTemporarily);
    }
    if status != 0 && !(auth_seq == 1 && status == sae::SAE_STATUS_H2E) {
        // An HnP-only AP rejects the H2E commit with a failure status, and an
        // H2E-only AP the hunting-and-pecking commit; fall back to the other
        // method when allowed.
        if auth_seq == 1 && exchange.hnp_fallback_allowed() {
            return if exchange.is_h2e() {
                Ok(AuthAction::RetryWithHnp)
            } else {
                Ok(AuthAction::RetryWithH2e)
            };
        }
        let mut msg = text::text("SAE auth failed: seq=");
        text::push_dec(&mut msg, auth_seq as u64);
        msg.append(" status=");
        text::push_dec(&mut msg, status as u64);
        return Err(auth_failed(msg.as_str()));
    }
    if auth_seq == 1 {
        // AP commit: body is group(2 LE) || scalar(32) || element(64).
        if payload.len() < 98 {
            let mut msg = text::text("SAE commit too short: ");
            text::push_dec(&mut msg, payload.len() as u64);
            msg.append(" bytes");
            return Err(auth_failed(msg.as_str()));
        }
        let group: u16 = bytes::read_le16(payload, 0);
        if group != exchange.group_id() {
            let mut msg = text::text("unsupported SAE group ");
            text::push_dec(&mut msg, group as u64);
            return Err(auth_failed(msg.as_str()));
        }
        let scalar = vstd::slice::slice_subrange(payload, 2, 34);
        let elem = vstd::slice::slice_subrange(payload, 34, 98);
        assert(scalar@.subrange(0, 32) =~= scalar@);
        match exchange.process_commit(scalar, elem) {
            Ok(confirm) => Ok(AuthAction::SendConfirm(confirm)),
            Err(e) => Err(e),
        }
    } else if auth_seq == 2 {
        // AP confirm: send_confirm(2 LE) || CN(32). SAE is done.
        match exchange.process_confirm(payload) {
            Ok(_) => Ok(AuthAction::Complete),
            Err(e) => Err(e),
        }
    } else {
        Ok(AuthAction::Continue)
    }
}

/// The pre-association authentication method in use.
#[derive(Clone, Debug)]
pub enum AuthMethod {
    Sae(SaeAuth),
}

impl AuthMethod {
    /// The exchange behind the method.
    pub open spec fn exchange(self) -> SaeAuth {
        match self {
            AuthMethod::Sae(s) => s,
        }
    }

    /// What holds of every method.
    pub open spec fn wf(self) -> bool {
        self.exchange().wf()
    }

    /// An SAE method for a station and an AP that share a password, under an
    /// optional password identifier.
    pub fn new_sae(
        password: &str,
        ssid: &str,
        sta_mac: [u8; 6],
        bssid: [u8; 6],
        h2e: bool,
        hnp_fallback: bool,
        password_id: Option<&str>,
    ) -> (r: Result<Self, WifiError>)
        ensures
            match r {
                Ok(m) => m.wf() && m.exchange().is_fresh(
                    password.spec_bytes(),
                    ssid.spec_bytes(),
                    sta_mac@,
                    bssid@,
                    h2e,
                    hnp_fallback,
                    sae::opt_str(password_id),
                ),
                Err(e) => sae::no_exchange(
                    e,
                    password.spec_bytes(),
                    ssid.spec_bytes(),
                    sta_mac@,
                    bssid@,
                    h2e,
                    sae::opt_str(password_id),
                ),
            },
    {
        match SaeAuth::new_with_password_id(
            password,
            ssid,
            sta_mac,
            bssid,
            h2e,
            hnp_fallback,
            password_id,
        ) {
            Ok(s) => Ok(AuthMethod::Sae(s)),
            Err(e) => Err(e),
        }
    }

    /// Build the initial AUTHENTICATE payload (SAE commit for WPA3). The
    /// error is that the system gave no randomness.
    pub fn initial_frame(&mut self) -> (r: Result<Vec<u8>, WifiError>)
        requires
            old(self).wf(),
        ensures
            final(self).wf(),
            match r {
                Ok(data) => {
                    &&& final(self).exchange().commits(old(self).exchange())
                    &&& data@ == final(self).exchange().commit_data(None)
                },
                Err(e) => *final(self) == *old(self) && sae::is_rng_failure(e),
            },
    {
        match self {
            AuthMethod::Sae(s) => s.build_init_auth_msg(),
        }
    }

    /// Re-run the SAE commit with the AP's anti-clogging token appended
    /// (status 76 retry).
    pub fn commit_with_token(&mut self, token: &[u8]) -> (r: Result<Vec<u8>, WifiError>)
        requires
            old(self).wf(),
            old(self).exchange().h2e ==> token@.len() % 256 != 255,
        ensures
            final(self).wf(),
            match r {
                Ok(data) => {
                    &&& old(self).exchange().kck is None
                    &&& final(self).exchange().commits(old(self).exchange())
                    &&& data@ == final(self).exchange().commit_data(Some(token@))
                },
                Err(e) => {
                    &&& *final(self) == *old(self)
                    &&& if old(self).exchange().kck is Some {
                        e.is(
                            ErrorKind::SaeFailed,
                            "cannot retry commit with token after processing the peer"@,
                        )
                    } else {
                        sae::is_rng_failure(e)
                    }
                },
            },
    {
        match self {
            AuthMethod::Sae(s) => s.build_commit_with_token(token),
        }
    }

    /// Process an authentication frame received from the AP.
    pub fn process_frame(&mut self, auth_seq: u16, status: u16, payload: &[u8]) -> (r: Result<
        AuthAction,
        WifiError,
    >)
        requires
            old(self).wf(),
        ensures
            final(self).wf(),
            frame_outcome(
                final(self).exchange(),
                old(self).exchange(),
                auth_seq,
                status,
                payload@,
                r,
            ),
    {
        match self {
            AuthMethod::Sae(s) => process_sae_frame(s, auth_seq, status, payload),
        }
    }

    pub fn pmk(&self) -> (r: Option<[u8; 32]>)
        ensures
            r == self.exchange().pmk,
    {
        match self {
            AuthMethod::Sae(s) => s.pmk(),
        }
    }

    /// PMKID of the completed authentication.
    pub fn pmkid(&self) -> (r: Option<[u8; 16]>)
        ensures
            r == self.exchange().pmkid,
    {
        match self {
            AuthMethod::Sae(s) => s.pmkid(),
        }
    }
}

/// A rejected commit restarts the exchange only with the other PWE derivation
/// method, and only where the exchange may fall back.
pub proof fn law_fallback_is_to_the_other_method(
    confirmed: bool,
    h2e: bool,
    hnp_fallback: bool,
    auth_seq: u16,
    status: u16,
    payload: Seq<u8>,
)
    ensures
        ({
            let step = sae_step(confirmed, h2e, hnp_fallback, auth_seq, status, payload);
            &&& step is Hnp ==> h2e && hnp_fallback
            &&& step is H2e ==> !h2e && hnp_fallback
        }),
{
}

/// A commit that the AP rejects for good never fails an exchange that may fall
/// back: whichever method it began with, it goes on with the other. The
/// statuses that mean something of their own are those of an anti-clogging
/// token, an unknown password identifier, SAE-PK and a temporary refusal.
pub proof fn law_rejected_commit_falls_back(h2e: bool, status: u16, payload: Seq<u8>)
    requires
        status != 0,
        status != sae::SAE_STATUS_H2E,
        status != sae::SAE_STATUS_ANTI_CLOGGING,
        status != sae::SAE_STATUS_UNKNOWN_PASSWORD_IDENTIFIER,
        status != SAE_STATUS_SAE_PK,
        !temporary_reject(status),
    ensures
        sae_step(false, h2e, true, 1, status, payload) == if h2e {
            SaeStep::Hnp
        } else {
            SaeStep::H2e
        },
{
}

/// After the AP's confirm was accepted no frame has any effect.
pub proof fn law_confirmed_ignores_frames(
    h2e: bool,
    hnp_fallback: bool,
    auth_seq: u16,
    status: u16,
    payload: Seq<u8>,
)
    ensures
        sae_step(true, h2e, hnp_fallback, auth_seq, status, payload) is Ignore,
{
}

} // verus!
