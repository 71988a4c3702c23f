//! Policies of the client that need no state: which disconnects are fatal,
//! which Wake-on-WLAN triggers are wanted, and how flags are named.

use vstd::prelude::*;
use vstd::string::*;

use crate::error::{ErrorKind, WifiError};

verus! {

/// IEEE 802.11 reason code 2: previous authentication no longer valid.
pub const REASON_PREV_AUTH_NOT_VALID: u16 = 2;

/// IEEE 802.11 reason code 23: IEEE 802.1X authentication failed.
pub const REASON_IEEE8021X_FAILED: u16 = 23;

/// A Wake-on-WLAN trigger, as a wiphy advertises it and as it wakes the
/// host.
#[derive(Debug, Clone, Copy, PartialEq, Eq, Structural)]
#[non_exhaustive]
pub enum WowlanTrigger {
    Any,
    Disconnect,
    MagicPkt,
    PktPattern,
    GtkRekeySupported,
    GtkRekeyFailure,
    EapIdentRequest,
    FourWayHandshake,
    RfkillRelease,
    NetDetect,
    TcpConnection,
    Other,
}

/// The wanted triggers among those that a wiphy supports.
pub open spec fn wanted_triggers(supported: Seq<WowlanTrigger>) -> Seq<WowlanTrigger> {
    (if supported.contains(WowlanTrigger::Disconnect) {
        seq![WowlanTrigger::Disconnect]
    } else {
        Seq::empty()
    }) + (if supported.contains(WowlanTrigger::GtkRekeyFailure) {
        seq![WowlanTrigger::GtkRekeyFailure]
    } else {
        Seq::empty()
    })
}

/// Whether a list holds a trigger.
fn holds(list: &[WowlanTrigger], t: WowlanTrigger) -> (r: bool)
    ensures
        r == list@.contains(t),
{
    let mut i: usize = 0;
    while i < list.len()
        invariant
            i <= list@.len(),
            forall|j: int| 0 <= j < i ==> list@[j] != t,
        decreases list@.len() - i,
    {
        if list[i] == t {
            return true;
        }
        i = i + 1;
    }
    false
}

/// The WoWLAN triggers the client wants to arm, filtered down to what the
/// wiphy advertises. GTK-rekey-failure is the motivating trigger: while the
/// host is suspended the device must wake it when the AP rekeys the group key
/// (otherwise the association silently loses the new GTK). Disconnect wakes
/// on link loss.
pub fn desired_wowlan_triggers(supported: &[WowlanTrigger]) -> (r: Vec<WowlanTrigger>)
    ensures
        r@ == wanted_triggers(supported@),
{
    let mut triggers: Vec<WowlanTrigger> = Vec::new();
    if holds(supported, WowlanTrigger::Disconnect) {
        triggers.push(WowlanTrigger::Disconnect);
    }
    if holds(supported, WowlanTrigger::GtkRekeyFailure) {
        triggers.push(WowlanTrigger::GtkRekeyFailure);
    }
    assert(triggers@ =~= wanted_triggers(supported@));
    triggers
}

/// Whether a WoWLAN wake for some reasons invalidates the current connection.
pub open spec fn breaks_connection(reasons: Seq<WowlanTrigger>) -> bool {
    reasons.contains(WowlanTrigger::GtkRekeyFailure) || reasons.contains(WowlanTrigger::Disconnect)
}

/// A WoWLAN wake that invalidates the current connection: the GTK rekey
/// failed while the host was suspended (the group key is unknown, so the old
/// association must be rebuilt) or the device woke on a disconnect.
pub fn wowlan_wakeup_requires_reconnect(reasons: &[WowlanTrigger]) -> (r: bool)
    ensures
        r == breaks_connection(reasons@),
{
    holds(reasons, WowlanTrigger::GtkRekeyFailure) || holds(reasons, WowlanTrigger::Disconnect)
}

/// Whether `e` is the error of a fatal disconnect reason.
pub open spec fn is_fatal_error(e: WifiError, reason: Option<u16>) -> bool {
    match reason {
        Some(2) => e.is(
            ErrorKind::WrongPassword,
            "AP rejected authentication (prev_auth_not_valid): the configured password is wrong or the PMKSA is stale"@,
        ),
        Some(23) => e.is(
            ErrorKind::AuthFailed,
            "AP rejected 802.1X authentication (ieee8021x_failed): check the configured EAP credentials"@,
        ),
        _ => e.is(
            ErrorKind::AuthFailed,
            "AP rejected authentication; check the configured credentials"@,
        ),
    }
}

/// The error reported to callers when the AP rejects the current
/// credentials/PMKSA with a fatal disconnect reason.
pub fn fatal_disconnect_error(reason: Option<u16>) -> (e: WifiError)
    ensures
        is_fatal_error(e, reason),
{
    match reason {
        Some(REASON_PREV_AUTH_NOT_VALID) => WifiError::new(
            ErrorKind::WrongPassword,
            "AP rejected authentication (prev_auth_not_valid): the configured password is wrong or the PMKSA is stale",
        ),
        Some(REASON_IEEE8021X_FAILED) => WifiError::new(
            ErrorKind::AuthFailed,
            "AP rejected 802.1X authentication (ieee8021x_failed): check the configured EAP credentials",
        ),
        _ => WifiError::new(
            ErrorKind::AuthFailed,
            "AP rejected authentication; check the configured credentials",
        ),
    }
}

/// Whether a disconnect reason means a fatal credential/PMKSA problem.
pub open spec fn is_fatal(reason: Option<u16>) -> bool {
    reason == Some(REASON_PREV_AUTH_NOT_VALID) || reason == Some(REASON_IEEE8021X_FAILED)
}

/// Whether an AP-initiated disconnect reason means a fatal credential/PMKSA
/// problem (retry with the long authentication backoff) instead of a
/// transient failure (short backoff). `None` (no reason was available) is
/// transient.
pub fn is_fatal_disconnect_reason(reason: Option<u16>) -> (r: bool)
    ensures
        r == is_fatal(reason),
{
    match reason {
        Some(code) => code == REASON_PREV_AUTH_NOT_VALID || code == REASON_IEEE8021X_FAILED,
        None => false,
    }
}

/// Texts joined by a comma and a space.
pub open spec fn joined(list: Seq<Seq<char>>) -> Seq<char>
    decreases list.len(),
{
    if list.len() == 0 {
        Seq::empty()
    } else if list.len() == 1 {
        list[0]
    } else {
        joined(list.drop_last()) + ", "@ + list.last()
    }
}

/// A name where a bit is set.
pub open spec fn named_bit(bitmap: u8, bit: u8, name: Seq<char>) -> Seq<Seq<char>> {
    if bitmap & bit != 0 {
        seq![name]
    } else {
        Seq::empty()
    }
}

/// The names of the bits of a Transition Disable bitmap that are set.
pub open spec fn transition_names(bitmap: u8) -> Seq<Seq<char>> {
    named_bit(bitmap, 0x01, "WPA3-Personal"@) + named_bit(bitmap, 0x02, "SAE-PK"@) + named_bit(
        bitmap,
        0x04,
        "WPA3-Enterprise"@,
    ) + named_bit(bitmap, 0x08, "Enhanced Open"@)
}

/// Add a name to a joined list where a bit is set.
fn push_named_bit(
    out: &mut String,
    any: &mut bool,
    bitmap: u8,
    bit: u8,
    name: &str,
    Ghost(list): Ghost<Seq<Seq<char>>>,
)
    requires
        old(out)@ == joined(list),
        *old(any) == (list.len() > 0),
    ensures
        final(out)@ == joined(list + named_bit(bitmap, bit, name@)),
        *final(any) == ((list + named_bit(bitmap, bit, name@)).len() > 0),
{
    if bitmap & bit != 0 {
        let ghost next = list + seq![name@];
        assert(next.drop_last() =~= list);
        if *any {
            out.append(", ");
        }
        out.append(name);
        assert(out@ =~= joined(next));
        *any = true;
    } else {
        assert(list + named_bit(bitmap, bit, name@) =~= list);
    }
}

/// Human-readable names for the Transition Disable KDE bitmap bits (bit 0 =
/// WPA3-Personal, 1 = SAE-PK, 2 = WPA3-Enterprise, 3 = Enhanced Open).
pub fn fmt_transition_disable(bitmap: u8) -> (r: String)
    ensures
        r@ == if transition_names(bitmap).len() == 0 {
            "none"@
        } else {
            joined(transition_names(bitmap))
        },
{
    let mut out = String::new();
    let mut any = false;
    let ghost l0: Seq<Seq<char>> = Seq::empty();
    let ghost l1 = l0 + named_bit(bitmap, 0x01, "WPA3-Personal"@);
    let ghost l2 = l1 + named_bit(bitmap, 0x02, "SAE-PK"@);
    let ghost l3 = l2 + named_bit(bitmap, 0x04, "WPA3-Enterprise"@);
    assert(out@ =~= joined(l0));
    push_named_bit(&mut out, &mut any, bitmap, 0x01, "WPA3-Personal", Ghost(l0));
    push_named_bit(&mut out, &mut any, bitmap, 0x02, "SAE-PK", Ghost(l1));
    push_named_bit(&mut out, &mut any, bitmap, 0x04, "WPA3-Enterprise", Ghost(l2));
    push_named_bit(&mut out, &mut any, bitmap, 0x08, "Enhanced Open", Ghost(l3));
    assert(l3 + named_bit(bitmap, 0x08, "Enhanced Open"@) =~= transition_names(bitmap));
    if any {
        out
    } else {
        crate::text::text("none")
    }
}

/// The bits of a Transition Disable bitmap: 0 stands for WPA3-Personal, 1 for
/// SAE-PK, 2 for WPA3-Enterprise and 3 for Enhanced Open; the others stand for
/// nothing.
pub proof fn law_transition_bits(bitmap: u8)
    ensures
        ({
            let names = transition_names(bitmap);
            let b = |mask: u8|
                if bitmap & mask != 0 {
                    1int
                } else {
                    0int
                };
            &&& names.len() == b(1) + b(2) + b(4) + b(8)
            &&& bitmap & 1 != 0 ==> names[0] == "WPA3-Personal"@
            &&& bitmap & 2 != 0 ==> names[b(1)] == "SAE-PK"@
            &&& bitmap & 4 != 0 ==> names[b(1) + b(2)] == "WPA3-Enterprise"@
            &&& bitmap & 8 != 0 ==> names[b(1) + b(2) + b(4)] == "Enhanced Open"@
        }),
{
}

} // verus!
