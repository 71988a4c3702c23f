//! SAE authentication frames octet by octet: what is sent first, and what each
//! answer of the access point leads to.

use vstd::prelude::*;

use crate::auth::{frame_outcome, AuthAction};
use crate::bytes;
use crate::client::associate::security_ie;
use crate::client::authenticate::{
    auth_begun, auth_frame_outcome, sae_begun, sae_completed, sae_restarted, timeout_outcome,
    AuthRequest, AuthStep, EapSetup,
};
use crate::client::state::{AuthSession, WifiIface, WifiState};
use crate::client::suites;
use crate::config::SaePwe;
use crate::crypto::curve;
use crate::crypto::peer;
use crate::crypto::primitives;
use crate::crypto::sae;
use crate::crypto::sae::SaeAuth;
use crate::error::{ErrorKind, WifiError};
use crate::ieee80211::layouts;
use crate::scan::SecurityType;

verus! {

/// The transaction number of an authentication frame.
pub open spec fn transaction(frame: Seq<u8>) -> int {
    frame[26] + 256 * frame[27]
}

/// The status of an authentication frame.
pub open spec fn status(frame: Seq<u8>) -> int {
    frame[28] + 256 * frame[29]
}

/// Whether a status is a temporary refusal: 17 (too many stations), 30 (try
/// again later), or 32 to 35.
pub open spec fn is_temporary(status: int) -> bool {
    status == 17 || status == 30 || status == 32 || status == 33 || status == 34 || status == 35
}

/// The first commit by hash-to-element has the status 126, the one by
/// hunting-and-pecking the status 0. Hash-to-element it is with a password
/// identifier, where it is configured, and where the choice is left to the AP
/// and the AP advertises it (bit 5 of its RSNXE). The other method may follow
/// where the choice is left to the AP and there is no password identifier.
pub proof fn law_first_commit(
    before: WifiIface,
    after: WifiIface,
    data: Vec<u8>,
)
    requires
        sae_begun(before, after, Ok(AuthRequest::Sae(data))),
        after.auth.method matches Some(m) ==> m.wf(),
    ensures
        data@.len() >= 102,
        data@.subrange(0, 2) == seq![1u8, 0],
        data@.subrange(4, 6) == seq![19u8, 0],
        ({
            let net = before.link.network;
            let rsnxe = before.link.bss_info.ap_rsnxe@;
            let h2e = net.sae_password_id is Some || net.sae_pwe == SaePwe::H2E || net.sae_pwe
                == SaePwe::Auto && rsnxe.len() >= 3 && rsnxe[2] & 0x20 != 0;
            data@.subrange(2, 4) == if h2e {
                seq![126u8, 0]
            } else {
                seq![0u8, 0]
            }
        }),
        before.link.network.sae_password_id is None ==> data@.len() == 102,
        after.auth.method matches Some(m) && (m.exchange().hnp_fallback
            <==> before.link.network.sae_pwe == SaePwe::Auto
            && before.link.network.sae_password_id is None),
{
    let m = after.auth.method->0;
    peer::law_commit_layout(m.exchange(), None);
    let link = before.link;
    let password = vstd::utf8::encode_utf8(link.network.password->0@);
    let ssid = vstd::utf8::encode_utf8(link.network.ssid@);
    let x0 = choose|x0: SaeAuth|
        x0.is_fresh(
            password,
            ssid,
            before.core.mac@,
            link.bss_info.bssid@,
            link.starts_h2e(),
            link.may_fall_back(),
            link.password_id(),
        ) && #[trigger] m.exchange().commits(x0);
    assert(m.exchange().h2e == x0.h2e);
    assert(m.exchange().password_id == x0.password_id);
}

/// What an answer of the AP leads to while its confirm is not accepted, by
/// transaction and status:
/// a commit with the status 123 (unknown password identifier) or 127 (SAE-PK)
/// fails the authentication; one that is refused for a time changes nothing
/// while the commit can be sent again; one that is refused otherwise restarts
/// the exchange by the other method where that is allowed, and fails it where
/// it is not; a confirm with any status but zero fails it.
pub proof fn law_answers_by_status(
    before: WifiIface,
    after: WifiIface,
    frame: Seq<u8>,
    r: AuthStep,
)
    requires
        before.auth.method is Some,
        !before.auth.method->0.exchange().confirmed,
        auth_frame_outcome(before, after, frame, r),
    ensures
        ({
            let x0 = before.auth.method->0.exchange();
            let (t, s) = (transaction(frame), status(frame));
            &&& t == 1 && (s == 123 || s == 127) ==> {
                &&& r is Nothing
                &&& after.state == WifiState::FailedAuthentication
                &&& after.last_error matches Some(e)
                &&& e.kind == ErrorKind::AuthFailed
            }
            &&& t == 1 && is_temporary(s) ==> {
                &&& r is Nothing
                &&& before.auth.sae_sync < 3 ==> after == before
                &&& before.auth.sae_sync >= 3 ==> after.state == WifiState::Failed
            }
            &&& t == 1 && s != 0 && s != 126 && s != 76 && s != 123 && s != 127 && !is_temporary(s)
                ==> if x0.hnp_fallback {
                sae_restarted(before, after, !x0.h2e, r)
            } else {
                &&& r is Nothing
                &&& after.state == WifiState::FailedAuthentication
            }
            &&& t == 2 && s != 0 ==> {
                &&& r is Nothing
                &&& after.state == WifiState::FailedAuthentication
            }
            &&& t != 1 && t != 2 && s == 0 ==> r is Nothing && after == before
        }),
{
}

/// A commit that the AP answers with the status 76 is sent again with the token
/// of the answer behind it: in a container element by hash-to-element, as it is
/// by hunting-and-pecking.
pub proof fn law_token_is_returned(
    before: WifiIface,
    after: WifiIface,
    frame: Seq<u8>,
    data: Vec<u8>,
    token: Seq<u8>,
)
    requires
        before.auth.method is Some,
        !before.auth.method->0.exchange().confirmed,
        frame.len() >= 32,
        transaction(frame) == 1,
        status(frame) == 76,
        token.len() < 255,
        frame.subrange(32, frame.len() as int) == if before.auth.method->0.exchange().h2e {
            seq![255u8, (1 + token.len()) as u8, 93] + token
        } else {
            token
        },
        auth_frame_outcome(before, after, frame, AuthStep::SendCommit(data)),
        after.auth.method matches Some(m) && m.wf(),
    ensures
        ({
            let h2e = before.auth.method->0.exchange().h2e;
            let tail = if h2e {
                seq![255u8, (1 + token.len()) as u8, 93] + token
            } else {
                token
            };
            &&& data@.subrange(0, 6) == seq![1u8, 0, if h2e {
                126u8
            } else {
                0u8
            }, 0, 19, 0]
            &&& data@.subrange(data@.len() - tail.len(), data@.len() as int) == tail
        }),
{
    let x0 = before.auth.method->0.exchange();
    let x1 = after.auth.method->0.exchange();
    let payload = frame.subrange(30, frame.len() as int);
    let tail = if x0.h2e {
        seq![255u8, (1 + token.len()) as u8, 93] + token
    } else {
        token
    };
    assert(payload.subrange(2, payload.len() as int) =~= frame.subrange(32, frame.len() as int));
    let carried = payload.subrange(2, payload.len() as int);
    assert(carried == tail);
    if x0.h2e {
        assert(payload[2] == carried[0] && payload[3] == carried[1] && payload[4] == carried[2]);
        assert(payload.subrange(5, 5 + token.len() as int) =~= carried.subrange(
            3,
            3 + token.len() as int,
        ));
        assert(tail.subrange(3, 3 + token.len() as int) =~= token);
    }
    assert(sae::token_of(x0.h2e, payload) == Ok::<Seq<u8>, Seq<char>>(token));
    assert(x1.h2e == x0.h2e);
    peer::law_commit_layout(x1, Some(token));
    let d = data@;
    assert(d.subrange(0, 6) =~= d.subrange(0, 2) + d.subrange(2, 4) + d.subrange(4, 6));
    assert(d.subrange(0, 6) =~= seq![1u8, 0, if x0.h2e {
        126u8
    } else {
        0u8
    }, 0, 19, 0]);
}

/// The commit of the AP (transaction 1, status 0 or 126) holds the group 19,
/// its scalar and its element. Where they are taken, the answer is a confirm:
/// transaction 2, status 0, the counter 1, and the HMAC under the KCK over the
/// counter, our scalar and element and those of the AP.
pub proof fn law_commit_is_confirmed(
    before: WifiIface,
    after: WifiIface,
    frame: Seq<u8>,
    data: Vec<u8>,
)
    requires
        before.auth.method is Some,
        frame.len() >= 30,
        auth_frame_outcome(before, after, frame, AuthStep::SendConfirm(data)),
        after.auth.method matches Some(m) && m.wf(),
    ensures
        transaction(frame) == 1,
        status(frame) == 0 || status(frame) == 126,
        frame.len() >= 128,
        frame[30] == 19 && frame[31] == 0,
        ({
            let x0 = before.auth.method->0.exchange();
            let x1 = after.auth.method->0.exchange();
            let scalar = frame.subrange(32, 64);
            let elem = frame.subrange(64, 128);
            &&& x1.derived(x0, scalar, elem)
            &&& data@ == seq![2u8, 0, 0, 0, 1, 0] + peer::confirm_by_sender(
                x1.kck->0@,
                1,
                x0.own_scalar@,
                x0.own_elem@,
                scalar,
                elem,
            )
            &&& 0 < bytes::be_nat(scalar) < curve::order()
        }),
{
    let x0 = before.auth.method->0.exchange();
    let x1 = after.auth.method->0.exchange();
    let payload = frame.subrange(30, frame.len() as int);
    assert(payload.subrange(2, 34) =~= frame.subrange(32, 64));
    assert(payload.subrange(34, 98) =~= frame.subrange(64, 128));
    let scalar = frame.subrange(32, 64);
    let elem = frame.subrange(64, 128);
    assert(scalar.subrange(0, 32) =~= scalar);
    let body = Seq::new(34, |i: int| 0u8);
    peer::law_confirms(x1, scalar, elem, body);
}

/// Association follows exactly an authentic confirm of the AP: transaction 2,
/// status 0, and behind its counter the HMAC under the KCK over the counter, the
/// AP's scalar and element and ours. The request names the AKM of the mode and
/// requires management frame protection.
pub proof fn law_association_follows_the_confirm(
    before: WifiIface,
    after: WifiIface,
    frame: Seq<u8>,
    r: AuthStep,
)
    requires
        before.auth.method matches Some(m) && m.wf(),
        !before.auth.method->0.exchange().confirmed,
        before.link.bss_info.security == SecurityType::Sae || before.link.bss_info.security
            == SecurityType::SaeExtKey,
        frame.len() >= 30,
        auth_frame_outcome(before, after, frame, r),
    ensures
        ({
            let x0 = before.auth.method->0.exchange();
            r is Associate <==> {
                &&& transaction(frame) == 2
                &&& status(frame) == 0
                &&& x0.kck is Some
                &&& frame.len() >= 64
                &&& frame.subrange(32, 64) == peer::confirm_by_sender(
                    x0.kck->0@,
                    (frame[30] + 256 * frame[31]) as u16,
                    x0.peer_scalar->0@,
                    x0.peer_elem->0@.subrange(1, 65),
                    x0.own_scalar@,
                    x0.own_elem@,
                )
            }
        }),
        r matches AuthStep::Associate(req) ==> {
            &&& suites::names_akm(req.ie@, suites::akm_type(before.link.bss_info.security))
            &&& req.mfp
            &&& req.control_port
            &&& !req.cached
            &&& after.auth.method->0.exchange().confirmed
        },
{
    let x0 = before.auth.method->0.exchange();
    let payload = frame.subrange(30, frame.len() as int);
    if x0.kck is Some && payload.len() >= 34 {
        peer::law_confirms(x0, x0.own_scalar@, x0.own_elem@, payload);
        assert(payload.subrange(2, 34) =~= frame.subrange(32, 64));
        assert(payload[0] == frame[30] && payload[1] == frame[31]);
    }
    let security = before.link.bss_info.security;
    let cipher = before.link.bss_info.group_mgmt_cipher;
    suites::law_wanted_capabilities(
        security,
        None,
        cipher,
        Seq::empty(),
        before.link.network.ocv,
        before.link.network.ext_key_id,
    );
    let e = security_ie(security, None, cipher);
    assert(e + Seq::<u8>::empty() =~= e);
}

/// A restarted exchange commits by the method it is restarted with, without a
/// password identifier and without a token, and by hash-to-element over the
/// password element that the AP derives.
pub proof fn law_restart_commits_by_its_method(
    before: WifiIface,
    after: WifiIface,
    h2e: bool,
    data: Vec<u8>,
)
    requires
        sae_restarted(before, after, h2e, AuthStep::SendCommit(data)),
        after.auth.method matches Some(m) && m.wf(),
    ensures
        before.link.network.password is Some,
        data@.len() == 102,
        data@.subrange(0, 6) == seq![1u8, 0, if h2e {
            126u8
        } else {
            0u8
        }, 0, 19, 0],
        h2e ==> after.auth.method->0.exchange().pwe@ == peer::ap_password_element(
            vstd::utf8::encode_utf8(before.link.network.password->0@),
            vstd::utf8::encode_utf8(before.link.network.ssid@),
            before.link.bss_info.bssid@,
            before.core.mac@,
        ),
{
    let m = after.auth.method->0;
    let x1 = m.exchange();
    let password = vstd::utf8::encode_utf8(before.link.network.password->0@);
    let ssid = vstd::utf8::encode_utf8(before.link.network.ssid@);
    let (sta, ap) = (before.core.mac@, before.link.bss_info.bssid@);
    let x0 = choose|x0: SaeAuth|
        x0.is_fresh(password, ssid, sta, ap, h2e, false, None) && #[trigger] m.exchange().commits(
            x0,
        );
    assert(x1.h2e == x0.h2e && x1.password_id == x0.password_id && x1.pwe == x0.pwe);
    peer::law_commit_layout(x1, None);
    let d = data@;
    assert(d.subrange(0, 6) =~= d.subrange(0, 2) + d.subrange(2, 4) + d.subrange(4, 6));
    assert(d.subrange(0, 6) =~= seq![1u8, 0, if h2e {
        126u8
    } else {
        0u8
    }, 0, 19, 0]);
    if h2e {
        peer::law_exchange_starts_from_password(x0, password, ssid, sta, ap, false, None);
    }
}

/// The first commit by hash-to-element is over the password element that the AP
/// derives, from the password followed by its identifier.
pub proof fn law_first_commit_is_over_the_password(
    before: WifiIface,
    after: WifiIface,
    data: Vec<u8>,
)
    requires
        sae_begun(before, after, Ok(AuthRequest::Sae(data))),
        before.link.starts_h2e(),
    ensures
        ({
            let net = before.link.network;
            let password = vstd::utf8::encode_utf8(net.password->0@);
            after.auth.method->0.exchange().pwe@ == peer::ap_password_element(
                match net.sae_password_id {
                    Some(id) => password + vstd::utf8::encode_utf8(id@),
                    None => password,
                },
                vstd::utf8::encode_utf8(net.ssid@),
                before.link.bss_info.bssid@,
                before.core.mac@,
            )
        }),
{
    let m = after.auth.method->0;
    let link = before.link;
    let password = vstd::utf8::encode_utf8(link.network.password->0@);
    let ssid = vstd::utf8::encode_utf8(link.network.ssid@);
    let (sta, ap) = (before.core.mac@, link.bss_info.bssid@);
    let x0 = choose|x0: SaeAuth|
        x0.is_fresh(
            password,
            ssid,
            sta,
            ap,
            link.starts_h2e(),
            link.may_fall_back(),
            link.password_id(),
        ) && #[trigger] m.exchange().commits(x0);
    assert(m.exchange().pwe == x0.pwe);
    peer::law_exchange_starts_from_password(
        x0,
        password,
        ssid,
        sta,
        ap,
        link.may_fall_back(),
        link.password_id(),
    );
}

/// Commits that no honest access point makes are refused: a scalar that is zero
/// or not below the group order, and an element that is no point of the curve.
pub proof fn law_bad_commits_are_refused(x: SaeAuth, scalar: Seq<u8>, elem: Seq<u8>)
    requires
        scalar.len() == 32,
        elem.len() == 64,
    ensures
        bytes::be_nat(scalar) == 0 || bytes::be_nat(scalar) >= curve::order() ==> x.commit_error(
            scalar,
            elem,
        ) is Some,
        !curve::on_curve(elem.subrange(0, 32), elem.subrange(32, 64)) ==> x.commit_error(
            scalar,
            elem,
        ) is Some,
        x.commit_error(scalar, elem) is None ==> curve::point_mul(
            curve::point_add(
                curve::point_mul(x.pwe@, bytes::be_nat(scalar)),
                seq![4u8] + elem,
            ),
            bytes::be_nat(x.rand@),
        ) != seq![0u8],
{
    assert(scalar.subrange(0, 32) =~= scalar);
    assert(elem.subrange(0, 64) =~= elem);
}

/// The exchange by itself takes the same steps: a commit of the access point
/// (transaction 1, status 0 or 126, group 19) is answered with a confirm over
/// the counter 1, our values and its values, and its authentic confirm
/// (transaction 2, status 0) completes the exchange.
#[verifier::spinoff_prover]
#[verifier::rlimit(40)]
pub proof fn law_exchange_steps(
    before: SaeAuth,
    after: SaeAuth,
    auth_seq: u16,
    status: u16,
    payload: Seq<u8>,
    r: Result<AuthAction, WifiError>,
)
    requires
        before.wf(),
        after.wf(),
        frame_outcome(after, before, auth_seq, status, payload, r),
    ensures
        r matches Ok(AuthAction::SendConfirm(confirm)) ==> {
            &&& auth_seq == 1
            &&& status == 0 || status == 126
            &&& payload.len() >= 98
            &&& payload[0] == 19 && payload[1] == 0
            &&& confirm@ == peer::confirm_by_sender(
                after.kck->0@,
                1,
                before.own_scalar@,
                before.own_elem@,
                payload.subrange(2, 34),
                payload.subrange(34, 98),
            )
        },
        r matches Ok(AuthAction::Complete) ==> {
            &&& auth_seq == 2
            &&& status == 0
            &&& !before.confirmed && after.confirmed
            &&& before.kck is Some
            &&& payload.len() >= 34
            &&& payload.subrange(2, 34) == peer::confirm_by_sender(
                before.kck->0@,
                (payload[0] + 256 * payload[1]) as u16,
                before.peer_scalar->0@,
                before.peer_elem->0@.subrange(1, 65),
                before.own_scalar@,
                before.own_elem@,
            )
        },
        r matches Ok(AuthAction::RetryWithHnp) ==> before.h2e && before.hnp_fallback,
        r matches Ok(AuthAction::RetryWithH2e) ==> !before.h2e && before.hnp_fallback,
        r matches Ok(AuthAction::SendCommitWithToken(_)) ==> auth_seq == 1 && status == 76,
        r matches Ok(AuthAction::RetryTemporarily) ==> auth_seq == 1 && is_temporary(status as int),
        r is Err ==> after == before,
        before.confirmed ==> after == before,
{
    if payload.len() >= 34 {
        if before.kck is Some {
            peer::law_confirms(before, before.own_scalar@, before.own_elem@, payload);
        }
    }
    if payload.len() >= 98 && after.kck is Some {
        peer::law_confirms(after, payload.subrange(2, 34), payload.subrange(34, 98), payload);
    }
}

/// Only SAE frames (Authentication, algorithm 3) that the selected access point
/// sent are looked at, and only while an exchange is there.
pub proof fn law_frames_of_others_are_ignored(iface: WifiIface, frame: Seq<u8>)
    ensures
        iface.takes_auth_frame(frame) <==> {
            &&& frame.len() >= 30
            &&& frame[0] & 0xfc == 0xb0
            &&& frame[24] == 3 && frame[25] == 0
            &&& frame.subrange(10, 16) == iface.link.bss_info.bssid@
            &&& iface.auth.method is Some
        },
{
    layouts::law_sae_frame_recognized(frame);
}

/// With fast transition, the association after SAE names the AKM of the mode
/// and, behind the RSNE and the RSNXE, the mobility domain of the access point;
/// where that is not known there is none.
#[verifier::spinoff_prover]
#[verifier::rlimit(40)]
pub proof fn law_ft_association_names_the_domain(
    before: WifiIface,
    after: WifiIface,
    auth: AuthSession,
    r: AuthStep,
)
    requires
        before.link.bss_info.security == SecurityType::FtSae || before.link.bss_info.security
            == SecurityType::FtSaeExtKey,
        sae_completed(before, after, auth, r),
    ensures
        before.link.bss_info.mdie is None ==> r is Nothing && after.state == WifiState::Failed,
        before.link.bss_info.mdie matches Some(m) ==> {
            &&& r matches AuthStep::Associate(req)
            &&& suites::names_akm(req.ie@, suites::akm_type(before.link.bss_info.security))
            &&& req.mfp && req.control_port && !req.cached
            &&& req.ie@.len() == 36
            &&& req.ie@.subrange(28, 36) == seq![
                244u8,
                1,
                0x20,
                54,
                3,
                m.mdid@[0],
                m.mdid@[1],
                m.ft_capab,
            ]
        },
{
    let mode = before.link.bss_info.security;
    let cipher = before.link.bss_info.group_mgmt_cipher;
    match before.link.bss_info.mdie {
        Some(m) => {
            let e = security_ie(mode, None, cipher);
            let rest = before.link.mdie_octets()->0;
            suites::law_security_elements(mode, None, cipher);
            suites::law_wanted_capabilities(
                mode,
                None,
                cipher,
                rest,
                before.link.network.ocv,
                before.link.network.ext_key_id,
            );
            let whole = e + rest;
            let out = r->Associate_0.ie@;
            assert(out.subrange(28, 36) =~= whole.subrange(28, 36));
            assert(whole.subrange(28, 36) =~= e.subrange(28, 31) + rest);
            assert(out.subrange(28, 36) =~= seq![
                244u8,
                1,
                0x20,
                54,
                3,
                m.mdid@[0],
                m.mdid@[1],
                m.ft_capab,
            ]);
        },
        None => {},
    }
}

/// What an authentication begins with, by the AKM of the mode: without a cached
/// association, SAE (8, 9, 24, 25) with a commit and everything else with
/// open-system authentication. The PMK of a passphrase (2, 4, 6) is 4096 rounds
/// of PBKDF2 over the SSID. Without a password neither is begun.
pub proof fn law_authentication_begins(
    before: WifiIface,
    after: WifiIface,
    eap: EapSetup,
    now: u64,
    r: Result<AuthRequest, WifiError>,
)
    requires
        auth_begun(before, after, eap, now, r),
    ensures
        ({
            let kind = suites::akm_type(before.link.bss_info.security);
            let sae = kind == 8 || kind == 9 || kind == 24 || kind == 25;
            let psk = kind == 2 || kind == 4 || kind == 6;
            let cached = before.has_cached_pmksa(now);
            let net = before.link.network;
            &&& cached ==> (r matches Ok(AuthRequest::OpenSystem))
            &&& r matches Ok(AuthRequest::Sae(_)) ==> sae && !cached && net.password is Some
            &&& r matches Ok(AuthRequest::OpenSystem) ==> cached || !sae
            &&& (sae || psk) && !cached && net.password is None ==> r is Err
            &&& psk && !cached && net.password is Some ==> {
                &&& r matches Ok(AuthRequest::OpenSystem)
                &&& after.auth.psk_pmk matches Some(pmk)
                &&& pmk@ == primitives::pbkdf2_sha1(
                    4096,
                    vstd::utf8::encode_utf8(net.ssid@),
                    vstd::utf8::encode_utf8(net.password->0@),
                    32,
                )
            }
            &&& !psk ==> after.auth.psk_pmk is None
            &&& kind == 0 || kind == 18 ==> (r matches Ok(AuthRequest::OpenSystem))
            &&& (kind == 1 || kind == 5) && (net.eap is None || !(eap is Ready)) ==> r is Err
            &&& (kind == 1 || kind == 5) && net.eap is Some && eap is Ready ==> {
                &&& r matches Ok(AuthRequest::OpenSystem)
                &&& after.auth.eap_peer matches Some(p)
                &&& p.identity@ == net.eap->0.identity@
            }
        }),
{
    suites::law_mode_families(before.link.bss_info.security);
}

/// When no answer comes in time: a commit in flight is sent again, unchanged,
/// three times; then the exchange is restarted once by the other method where
/// that is allowed; then the attempt fails, and for a wrong password exactly
/// where a passphrase (AKM 2, 4 or 6) was being proved in a handshake.
pub proof fn law_no_answer_in_time(before: WifiIface, after: WifiIface, r: AuthStep)
    requires
        timeout_outcome(before, after, r),
    ensures
        ({
            let again = before.auth.sae_commit_sent && before.auth.sae_sync < 3;
            let kind = suites::akm_type(before.link.bss_info.security);
            let other = before.auth.method is Some
                && before.auth.method->0.exchange().hnp_fallback && !before.auth.sae_hnp_attempted;
            &&& again ==> {
                &&& r matches AuthStep::SendCommit(data)
                &&& data@ == before.auth.sae_commit_auth_data@
                &&& after.auth.sae_sync == before.auth.sae_sync + 1
                &&& after.state == before.state
            }
            &&& !again && other ==> sae_restarted(
                before,
                after,
                !before.auth.method->0.exchange().h2e,
                r,
            )
            &&& !again && !other ==> {
                let proving = (kind == 2 || kind == 4 || kind == 6) && before.link.pmksa_in_use
                    is None && before.link.fourway is Some;
                &&& r is Nothing
                &&& proving ==> after.state == WifiState::FailedAuthentication
                    && after.last_error is Some && after.last_error->0.kind
                    == ErrorKind::WrongPassword
                &&& !proving ==> after.state == WifiState::Failed && after.last_error
                    == before.last_error
            }
        }),
{
    suites::law_mode_families(before.link.bss_info.security);
}

/// An attempt starts clean: nothing of an earlier handshake, exchange or roam is
/// left, and what was selected and what is cached stays.
pub proof fn law_attempt_starts_clean(before: WifiIface, after: WifiIface)
    requires
        after.attempt_begun(before),
    ensures
        after.link.fourway is None,
        after.link.pending_ft_msg1 is None,
        after.auth.owe is None,
        after.auth.eap_pmk is None,
        !after.auth.sae_commit_sent,
        after.auth.sae_sync == 0,
        !after.auth.sae_hnp_attempted,
        !after.roam.ft_roam,
        after.link.network == before.link.network,
        after.link.bss_info == before.link.bss_info,
        after.link.ft == before.link.ft,
        after.pmksa_cache == before.pmksa_cache,
        after.state == before.state,
        after.core == before.core,
        after.caps == before.caps,
        after.scan == before.scan,
{
}

} // verus!
