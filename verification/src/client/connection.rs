//! What the reports of the kernel lead to: which of them connect, what the
//! association request asks for, and which frames go where.

use vstd::prelude::*;

use crate::client::associate::{security_ie, with_wanted_capabilities};
use crate::client::events::{
    associated_outcome, authenticated_outcome, event_outcome, EventStep, WifiEvent,
};
use crate::client::policy::WowlanTrigger;
use crate::client::state::{WifiIface, WifiState};
use crate::client::suites;
use crate::error::ErrorKind;
use crate::ieee80211::elements::CipherSuite;
use crate::scan::SecurityType;

verus! {

/// Whether the RSNE of an AP, with one pairwise cipher and one AKM, says that
/// the AP is capable of management frame protection: bit 7 of octet 20.
pub open spec fn ap_is_capable(rsne: Seq<u8>, kind: u8) -> bool {
    suites::names_akm(rsne, kind) && rsne[20] >= 128
}

/// An association request after open-system authentication names the AKM of
/// the mode. With 802.1X over SHA-256 and with OWE it requires management frame
/// protection; an open network has no elements and no control port, and every
/// other mode has one. With OWE the request also carries our public key.
#[verifier::spinoff_prover]
#[verifier::rlimit(40)]
pub proof fn law_association_request(
    before: WifiIface,
    after: WifiIface,
    status: u16,
    frame: Option<Vec<u8>>,
    r: EventStep,
)
    requires
        !before.roam.ft_roam,
        before.link.pmksa_in_use is None,
        !before.link.bss_info.security.spec_is_sae(),
        before.link.bss_info.security != SecurityType::Unsupported,
        authenticated_outcome(before, after, status, frame, r),
    ensures
        status != 0 ==> r is Nothing && after.state == WifiState::Failed,
        r is Associate || r is Nothing,
        r matches EventStep::Associate(req) ==> {
            let mode = before.link.bss_info.security;
            let kind = suites::akm_type(mode);
            &&& !req.cached
            &&& req.control_port <==> kind != 0
            &&& kind == 0 ==> !req.mfp
            &&& kind != 0 ==> suites::names_akm(req.ie@, kind)
            &&& kind == 5 || kind == 18 ==> req.mfp
            &&& kind == 18 ==> {
                &&& after.auth.owe matches Some(o)
                &&& req.ie@.len() == 65
                &&& req.ie@.subrange(28, 65) == seq![255u8, 35, 32, 19, 0] + o.our_pubkey_raw@
            }
            &&& kind == 4 ==> {
                &&& before.link.bss_info.mdie matches Some(m)
                &&& req.ie@.subrange(28, 33) == seq![54u8, 3, m.mdid@[0], m.mdid@[1], m.ft_capab]
            }
        },
        status == 0 && before.link.bss_info.security == SecurityType::FtPsk
            && before.link.bss_info.mdie is None ==> after.state == WifiState::Failed,
{
    let mode = before.link.bss_info.security;
    let kind = suites::akm_type(mode);
    let cipher = before.link.bss_info.group_mgmt_cipher;
    let (ocv, ext) = (before.link.network.ocv, before.link.network.ext_key_id);
    if kind != 0 {
        let e = security_ie(mode, None, cipher);
        suites::law_security_elements(mode, None, cipher);
        assert(e + Seq::<u8>::empty() =~= e);
        suites::law_wanted_capabilities(mode, None, cipher, Seq::empty(), ocv, ext);
        match r {
            EventStep::Associate(req) => {
                if kind == 18 {
                    let key = after.auth.owe->0.our_pubkey_raw@;
                    let rest = crate::crypto::owe::dh_element(key);
                    crate::crypto::peer::law_owe_element(key, Seq::empty());
                    suites::law_wanted_capabilities(mode, None, cipher, rest, ocv, ext);
                    let whole = e + rest;
                    assert(req.ie@ == with_wanted_capabilities(whole, ocv, ext));
                    assert(req.ie@.subrange(28, 65) =~= whole.subrange(28, 65));
                    assert(whole.subrange(28, 65) =~= rest);
                }
                if kind == 4 {
                    let m = before.link.bss_info.mdie->0;
                    let rest = before.link.mdie_octets()->0;
                    suites::law_wanted_capabilities(mode, None, cipher, rest, ocv, ext);
                    let whole = e + rest;
                    assert(req.ie@.subrange(28, 33) =~= whole.subrange(28, 33));
                    assert(whole.subrange(28, 33) =~= seq![
                        54u8,
                        3,
                        m.mdid@[0],
                        m.mdid@[1],
                        m.ft_capab,
                    ]);
                }
            },
            _ => {},
        }
    }
}

/// With WPA2, an association requires management frame protection exactly where
/// the AP is capable of it: bit 7 of the capabilities of its RSNE.
pub proof fn law_protection_where_capable(
    before: WifiIface,
    after: WifiIface,
    status: u16,
    frame: Option<Vec<u8>>,
    r: EventStep,
    kind: u8,
)
    requires
        !before.roam.ft_roam,
        before.link.pmksa_in_use is None,
        before.link.bss_info.security == SecurityType::Wpa2Psk || before.link.bss_info.security
            == SecurityType::Wpa2PskSha256 || before.link.bss_info.security
            == SecurityType::Wpa2Ent || before.link.bss_info.security == SecurityType::FtPsk,
        suites::names_akm(before.link.bss_info.ap_rsne@, kind),
        authenticated_outcome(before, after, status, frame, r),
    ensures
        r matches EventStep::Associate(req) ==> (req.mfp <==> ap_is_capable(
            before.link.bss_info.ap_rsne@,
            kind,
        )),
{
    lemma_capable(before.link.bss_info.ap_rsne@, kind);
}

/// The capability of management frame protection is bit 7 of octet 20.
proof fn lemma_capable(rsne: Seq<u8>, kind: u8)
    requires
        suites::names_akm(rsne, kind),
    ensures
        crate::ieee80211::elements::advertises(rsne, 0x0080) <==> rsne[20] >= 128,
{
    let body = rsne.subrange(2, rsne.len() as int);
    assert(body[6] == 1 && body[7] == 0 && body[12] == 1 && body[13] == 0);
    assert(crate::ieee80211::elements::akm_offset(body) == Some(12int));
    assert(crate::ieee80211::elements::capabilities_offset(body) == Some(18int));
    assert(body[18] == rsne[20] && body[19] == rsne[21]);
    let (lo, hi) = (rsne[20], rsne[21]);
    assert(((lo as u16) + 256 * (hi as u16)) as u16 & 0x0080 != 0 <==> lo >= 128) by (bit_vector);
}

/// The elements of a mode with a PMKID carry it in octets 24 to 39, whatever
/// capabilities are advertised.
proof fn lemma_cached_elements(
    mode: SecurityType,
    pmkid: [u8; 16],
    cipher: CipherSuite,
    ocv: bool,
    ext: bool,
)
    requires
        ({
            let kind = suites::akm_type(mode);
            kind == 2 || kind == 4 || kind == 6 || kind == 8 || kind == 9 || kind == 24 || kind
                == 25
        }),
    ensures
        ({
            let out = with_wanted_capabilities(security_ie(mode, Some(pmkid), cipher), ocv, ext);
            &&& suites::names_akm(out, suites::akm_type(mode))
            &&& out[22] == 1 && out[23] == 0
            &&& out.subrange(24, 40) == pmkid@
        }),
{
    let e = security_ie(mode, Some(pmkid), cipher);
    suites::law_security_elements(mode, Some(pmkid), cipher);
    assert(e + Seq::<u8>::empty() =~= e);
    suites::law_wanted_capabilities(mode, Some(pmkid), cipher, Seq::empty(), ocv, ext);
    let out = with_wanted_capabilities(e, ocv, ext);
    assert(out.subrange(24, 40) =~= e.subrange(24, 40));
}

/// Over a cached PMK the association request carries the PMKID of the cached
/// association, behind the AKM of the mode, and says that it does; where the AP
/// refuses it, the entry leaves the cache and nothing else changes.
#[verifier::spinoff_prover]
#[verifier::rlimit(40)]
pub proof fn law_cached_association_request(
    before: WifiIface,
    after: WifiIface,
    status: u16,
    frame: Option<Vec<u8>>,
    r: EventStep,
)
    requires
        !before.roam.ft_roam,
        before.link.pmksa_in_use is Some,
        ({
            let kind = suites::akm_type(before.link.bss_info.security);
            kind == 2 || kind == 4 || kind == 6 || kind == 8 || kind == 9 || kind == 24 || kind
                == 25
        }),
        authenticated_outcome(before, after, status, frame, r),
    ensures
        ({
            let entry = before.link.pmksa_in_use->0;
            let kind = suites::akm_type(before.link.bss_info.security);
            if status == 0 {
                &&& r matches EventStep::Associate(req)
                &&& req.cached
                &&& req.control_port
                &&& suites::names_akm(req.ie@, kind)
                &&& req.ie@[22] == 1 && req.ie@[23] == 0
                &&& req.ie@.subrange(24, 40) == entry.pmkid@
                &&& kind == 8 || kind == 24 || kind == 25 ==> req.mfp
                &&& after == before
            } else {
                &&& r matches EventStep::FullAuth(Some(e)) && e == entry
                &&& after.link.pmksa_in_use is None
                &&& !after.pmksa_cache@.dom().contains((entry.ssid@, entry.bssid@))
                &&& forall|k: (Seq<char>, Seq<u8>)|
                    k != (entry.ssid@, entry.bssid@) && #[trigger] before.pmksa_cache@.dom().contains(
                        k,
                    ) ==> after.pmksa_cache@.dom().contains(k) && after.pmksa_cache@[k]
                        == before.pmksa_cache@[k]
                &&& after.state == before.state
            }
        }),
{
    let entry = before.link.pmksa_in_use->0;
    lemma_cached_elements(
        before.link.bss_info.security,
        entry.pmkid,
        before.link.bss_info.group_mgmt_cipher,
        before.link.network.ocv,
        before.link.network.ext_key_id,
    );
}

/// Only a success connects: a status other than zero never leads to an
/// association, to a connection or to keys, and an association that succeeds
/// connects an open network at once and no other.
pub proof fn law_only_success_connects(
    before: WifiIface,
    after: WifiIface,
    event: WifiEvent,
    r: EventStep,
)
    requires
        event_outcome(before, after, event, r),
    ensures
        event matches WifiEvent::Associated { status, ies } ==> (r is Connected <==> status == 0
            && before.link.bss_info.security == SecurityType::Open && !before.roam.ft_roam),
        event matches WifiEvent::Associated { status, ies } ==> (status != 0
            && before.link.pmksa_in_use is None ==> after.state == WifiState::Failed),
        event matches WifiEvent::ConnectResult { status } ==> r is Nothing && (after.state
            == if status == 0 {
            before.state
        } else {
            WifiState::Failed
        }),
        r is Connected ==> after.state == WifiState::ConnectedWithoutOffloadRekey
            && after.link == before.link && after.auth == before.auth,
        r is Connected ==> event is Associated || event is PortAuthorized,
{
}

/// A management frame goes by the category in octet 24: 10 to the transition
/// engine, 5 to the measurement engine, and any other to the authentication.
pub proof fn law_frames_by_category(
    before: WifiIface,
    after: WifiIface,
    frame: Vec<u8>,
    r: EventStep,
)
    requires
        event_outcome(before, after, WifiEvent::Frame(frame), r),
    ensures
        r is WnmFrame <==> frame@.len() >= 25 && frame@[24] == 10,
        r is RrmFrame <==> frame@.len() >= 25 && frame@[24] == 5,
        r is Auth <==> !(frame@.len() >= 25 && (frame@[24] == 10 || frame@[24] == 5)),
        r is WnmFrame || r is RrmFrame ==> after == before,
{
}

/// An SAE authentication that ends without a frame of the AP fails for a wrong
/// password exactly where the status is 15.
pub proof fn law_challenge_failure_is_wrong_password(
    before: WifiIface,
    after: WifiIface,
    status: u16,
    r: EventStep,
)
    requires
        !before.roam.ft_roam,
        before.link.pmksa_in_use is None,
        before.link.bss_info.security.spec_is_sae(),
        status != 0,
        authenticated_outcome(before, after, status, None, r),
    ensures
        r is Nothing,
        after.state == WifiState::FailedAuthentication,
        after.last_error is Some,
        after.last_error->0.kind == ErrorKind::WrongPassword <==> status == 15,
{
}

/// A reported disconnect while an initial PSK handshake is under way is a wrong
/// password; while connected it always clears the connection.
pub proof fn law_disconnect_in_handshake_is_wrong_password(
    before: WifiIface,
    after: WifiIface,
    event: WifiEvent,
    r: EventStep,
)
    requires
        event is Disconnect || event is ApDisconnect || event is ApDisconnectNoReason,
        !before.roam.ft_roam,
        event_outcome(before, after, event, r),
    ensures
        before.state.spec_is_connected() ==> r is Disconnect && !after.state.spec_is_connected(),
        before.state == WifiState::Authenticating && before.link.pmksa_in_use is None && ({
            let kind = suites::akm_type(before.link.bss_info.security);
            kind == 2 || kind == 4 || kind == 6
        }) ==> {
            &&& r is Disconnect
            &&& after.state == WifiState::FailedAuthentication
            &&& after.last_error matches Some(e)
            &&& e.kind == ErrorKind::WrongPassword
        },
{
}

/// With OWE, the association response completes the exchange exactly where it
/// holds acceptable Diffie-Hellman data; otherwise the attempt fails.
pub proof fn law_owe_response(
    before: WifiIface,
    after: WifiIface,
    ies: Option<Vec<u8>>,
    r: EventStep,
)
    requires
        !before.roam.ft_roam,
        before.link.bss_info.security == SecurityType::Owe,
        before.auth.owe is Some,
        before.auth.owe->0.pmk is None,
        associated_outcome(before, after, 0, ies, r),
    ensures
        r is Nothing,
        after.state == before.state || after.state == WifiState::Failed,
        after.state != WifiState::Failed ==> (after.auth.owe matches Some(o) && o.pmk is Some),
{
}

/// A connection that is established resets the retry interval to 10 s and keeps
/// everything else.
pub proof fn law_established(iface: WifiIface)
    ensures
        ({
            let after = iface.spec_established();
            &&& after.state == WifiState::ConnectedWithoutOffloadRekey
            &&& after.scan.scan_retry_interval == 10
            &&& after.link == iface.link
            &&& after.auth == iface.auth
            &&& after.roam == iface.roam
            &&& after.core == iface.core
            &&& after.caps == iface.caps
            &&& after.pmksa_cache == iface.pmksa_cache
            &&& after.last_error == iface.last_error
        }),
{
}

/// A successful association of a fast transition mode (AKM 4, 9 or 25) derives
/// the key hierarchy next, one of any other mode with a handshake waits for it;
/// during a roam the answer goes to the roaming engine, and a refusal ends the
/// roam.
pub proof fn law_association_response(
    before: WifiIface,
    after: WifiIface,
    status: u16,
    ies: Option<Vec<u8>>,
    r: EventStep,
)
    requires
        associated_outcome(before, after, status, ies, r),
    ensures
        ({
            let kind = suites::akm_type(before.link.bss_info.security);
            &&& status == 0 && !before.roam.ft_roam ==> (r is SetupFt <==> kind == 4 || kind == 9
                || kind == 25)
            &&& status == 0 && !before.roam.ft_roam && (kind == 1 || kind == 2 || kind == 5 || kind
                == 6 || kind == 8 || kind == 24) ==> r is Nothing && after == before
            &&& before.roam.ft_roam && status == 0 ==> r is FtAssocResponse && after == before
            &&& before.roam.ft_roam && status != 0 ==> r is Nothing && !after.roam.ft_roam
                && after.state == WifiState::Failed
            &&& r is FtAssocResponse ==> before.roam.ft_roam && status == 0
        }),
{
}

/// A wakeup disarms the device, and breaks the connection where one is there
/// and a disconnect or a failed group rekey is among the reasons.
pub proof fn law_wakeup(
    before: WifiIface,
    after: WifiIface,
    reasons: Vec<WowlanTrigger>,
    r: EventStep,
    i: int,
)
    requires
        event_outcome(before, after, WifiEvent::WowlanWakeup(reasons), r),
    ensures
        r is Woken,
        !after.wowlan.armed,
        r matches EventStep::Woken { disarm, disconnect } ==> disarm == before.wowlan.armed && (
        disconnect ==> before.state.spec_is_connected() && after.state == WifiState::Failed) && (
        !disconnect ==> after.state == before.state),
        before.state.spec_is_connected() && 0 <= i < reasons@.len() && (reasons@[i]
            == WowlanTrigger::Disconnect || reasons@[i] == WowlanTrigger::GtkRekeyFailure)
            ==> after.state == WifiState::Failed,
        (forall|k: int|
            0 <= k < reasons@.len() ==> (#[trigger] reasons@[k]) != WowlanTrigger::Disconnect
                && reasons@[k] != WowlanTrigger::GtkRekeyFailure) ==> after.state == before.state,
{
    if 0 <= i < reasons@.len() {
        assert(reasons@.contains(reasons@[i]));
    }
}

/// The reason of a fatal disconnect tells the credential: 2 the password, 23
/// those of 802.1X.
pub proof fn law_fatal_reasons_name_the_credential(
    before: WifiIface,
    after: WifiIface,
    reason: u16,
    r: EventStep,
)
    requires
        before.state.spec_is_connected(),
        !before.roam.ft_roam,
        event_outcome(before, after, WifiEvent::ApDisconnect { reason }, r),
    ensures
        reason == 2 ==> (after.last_error matches Some(e) && e.kind == ErrorKind::WrongPassword),
        reason == 23 ==> (after.last_error matches Some(e) && e.kind == ErrorKind::AuthFailed),
        reason != 2 && reason != 23 ==> after.last_error == before.last_error,
        r is Disconnect,
{
}

/// A cached association is used for an SAE or a PSK mode alone (AKM 2, 4, 6, 8,
/// 9, 24 or 25), for the network and the access point it was made with, and only
/// before it expires.
pub proof fn law_cached_association_in_use(iface: WifiIface, now: u64)
    requires
        iface.has_cached_pmksa(now),
    ensures
        ({
            let kind = suites::akm_type(iface.link.bss_info.security);
            let key = (iface.link.network.ssid@, iface.link.bss_info.bssid@);
            &&& kind == 2 || kind == 4 || kind == 6 || kind == 8 || kind == 9 || kind == 24 || kind
                == 25
            &&& iface.pmksa_cache@.dom().contains(key)
            &&& now < iface.pmksa_cache@[key].expires
        }),
{
}

/// While a roam is under way, the answers to its authentication go to the
/// roaming engine and change nothing.
pub proof fn law_roam_answers(
    before: WifiIface,
    after: WifiIface,
    status: u16,
    frame: Option<Vec<u8>>,
    r: EventStep,
)
    requires
        authenticated_outcome(before, after, status, frame, r),
    ensures
        r is FtAuthResponse <==> before.roam.ft_roam,
        before.roam.ft_roam ==> after == before,
{
}

/// What the remaining reports do: a stopped scheduled scan is no longer waited
/// for, a weak signal goes to the roaming engine, a frame of the control port to
/// the handshake, and any other report does nothing.
pub proof fn law_other_reports(
    before: WifiIface,
    after: WifiIface,
    event: WifiEvent,
    r: EventStep,
)
    requires
        event_outcome(before, after, event, r),
    ensures
        event is SchedScanStopped ==> {
            &&& r is Nothing
            &&& !after.scan.sched_scan_stop_pending
            &&& after.scan.sched_scan_active == before.scan.sched_scan_active
            &&& after.state == before.state
            &&& after.link == before.link
        },
        event is CqmRssi <==> r is CqmRssi,
        event is CqmRssi || event is Other ==> after == before,
        event is ControlPortFrame <==> r is Port,
        event is WowlanWakeup <==> r is Woken,
        event is Other ==> r is Nothing,
{
}

} // verus!
