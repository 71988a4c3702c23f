//! What the user of a client asks of an interface: another network list,
//! Wake-on-WLAN, and a clean end.

use vstd::prelude::*;
use vstd::string::*;

use crate::client::policy;
use crate::client::policy::WowlanTrigger;
use crate::client::state::{
    IfaceCore, ScanEngine, WifiIface, WifiState, WowlanState, RETRY_BACKOFF_INIT_SEC,
};
use crate::config;
use crate::config::{Network, NetworkConfig, WifiConfig};
use crate::text;

verus! {

/// What has to be sent to the kernel for a new network list.
#[derive(Debug, Clone, Copy, PartialEq, Eq, Structural)]
pub enum UpdateStep {
    /// The list is the old one: nothing changes.
    Unchanged,
    /// The connection stays; only the list changes.
    Kept,
    /// The client starts over: stop the firmware's scheduled scan, clear the
    /// WoWLAN triggers, disconnect - each where it says so.
    Reset { stop_scan: bool, disarm: bool, disconnect: bool },
}

/// What arming WoWLAN takes.
#[derive(Debug, Clone)]
pub enum ArmStep {
    /// Triggers are armed already.
    Armed,
    /// The wiphy has no usable WoWLAN support.
    Unsupported,
    /// Set these triggers.
    Request(Vec<WowlanTrigger>),
}

/// Whether a network with an SSID is in a list.
fn names_ssid(networks: &Vec<NetworkConfig>, ssid: &String) -> (r: bool)
    ensures
        r == WifiIface::keeps(config::network_views(networks@), ssid@),
{
    let mut i: usize = 0;
    while i < networks.len()
        invariant
            i <= networks@.len(),
            forall|j: int| 0 <= j < i ==> (#[trigger] networks@[j]).ssid@ != ssid@,
        decreases networks@.len() - i,
    {
        if text::same_text(&networks[i].ssid, ssid) {
            assert(config::network_views(networks@)[i as int].ssid == ssid@);
            return true;
        }
        i = i + 1;
    }
    false
}

impl WifiIface {
    /// Stop the firmware scheduled scan, where one is running. Returns
    /// whether the stop has to be sent; its failure does not matter, since a
    /// lingering scan is not fatal.
    pub fn stop_sched_scan(&mut self) -> (r: bool)
        ensures
            r == old(self).scan.sched_scan_active,
            *final(self) == (WifiIface {
                scan: old(self).scan_stopped(),
                ..*old(self)
            }),
    {
        if !self.scan.sched_scan_active {
            return false;
        }
        self.scan.sched_scan_active = false;
        self.scan.sched_scan_stop_pending = true;
        true
    }

    /// The scan engine after a stop of the firmware scheduled scan.
    pub open spec fn scan_stopped(self) -> ScanEngine {
        ScanEngine {
            sched_scan_active: false,
            sched_scan_stop_pending: self.scan.sched_scan_active
                || self.scan.sched_scan_stop_pending,
            ..self.scan
        }
    }

    /// Replace the configured network list at runtime, reusing the same
    /// client (nl80211 socket, wiphy capability probes and PMKSA cache).
    ///
    /// * An unchanged list is a no-op: idempotent re-apply keeps the current
    ///   connection.
    /// * If the currently connected network is dropped from the list (or the
    ///   list becomes empty), the client disconnects cleanly, stops any
    ///   scheduled scan and resets to `Init` so a fresh scan for the new
    ///   SSIDs starts.
    /// * If the list changes while not connected, the same reset makes the
    ///   client probe the new SSIDs immediately.
    /// * If the connected network is still in the new list, the connection is
    ///   kept; only the scan/match list changes.
    pub fn update_networks(&mut self, networks: Vec<NetworkConfig>) -> (r: UpdateStep)
        requires
            old(self).wf(),
        ensures
            final(self).wf(),
            update_outcome(*old(self), *final(self), networks, r),
    {
        if config::same_networks(&networks, &self.core.config.networks) {
            return UpdateStep::Unchanged;
        }
        let connected = self.state.is_connected();
        let kept = connected && names_ssid(&networks, &self.link.network.ssid);
        let ghost new = config::network_views(networks@);
        let first = if networks.len() > 0 {
            networks[0].copy()
        } else {
            let empty = String::new();
            assert(empty@ =~= Seq::<char>::empty());
            NetworkConfig::new(empty.as_str())
        };
        self.core.config.networks = networks;
        self.scan.reset_rotation();
        if kept {
            return UpdateStep::Kept;
        }
        // A scheduled scan's match set can only be changed by restarting it;
        // stop it so the next host scan probes the new list.
        let stop_scan = self.stop_sched_scan();
        let disarm = connected && self.wowlan.armed;
        if disarm {
            self.disarm_wowlan();
        }
        // Reset every per-attempt field; keep the PMKSA cache so a later
        // return to a known network can skip full authentication.
        self.link.reset_for_update(first);
        self.auth.reset();
        self.roam.reset();
        self.scan.scan_retry_interval = RETRY_BACKOFF_INIT_SEC;
        self.state = WifiState::Init;
        UpdateStep::Reset { stop_scan, disarm, disconnect: connected }
    }

    /// The core with another network list.
    pub open spec fn core_with(self, networks: Vec<NetworkConfig>) -> IfaceCore {
        IfaceCore { config: WifiConfig { networks, ..self.core.config }, ..self.core }
    }

    /// The scan engine at the start of a fresh rotation.
    pub open spec fn rotation_reset(self) -> ScanEngine {
        ScanEngine {
            scan_retry_interval: self.scan.scan_retry_interval,
            sched_scan_active: self.scan.sched_scan_active,
            sched_scan_stop_pending: self.scan.sched_scan_stop_pending,
            ..ScanEngine::fresh()
        }
    }

    /// Arm WoWLAN triggers so the device can wake the host while it is
    /// suspended: `Disconnect` and `GtkRekeyFailure` where the wiphy
    /// advertises them.
    pub fn arm_wowlan(&self) -> (r: ArmStep)
        ensures
            arm_outcome(*self, r),
    {
        if self.wowlan.armed {
            return ArmStep::Armed;
        }
        let triggers = policy::desired_wowlan_triggers(
            self.caps.wowlan_supported_triggers.as_slice(),
        );
        if triggers.len() == 0 {
            return ArmStep::Unsupported;
        }
        ArmStep::Request(triggers)
    }

    /// The triggers were set, or could not be: a suspend must not be blocked
    /// on WoWLAN, so a failure only leaves them unarmed. Returns whether they
    /// are armed.
    pub fn arm_wowlan_done(&mut self, ok: bool) -> (r: bool)
        ensures
            r == ok,
            *final(self) == (WifiIface {
                wowlan: WowlanState { armed: ok || old(self).wowlan.armed },
                ..*old(self)
            }),
    {
        if ok {
            self.wowlan.armed = true;
        }
        ok
    }

    /// Whether the connected network opted in to WoWLAN, so that its triggers
    /// are to be armed as the connection lands.
    pub fn arms_wowlan(&self) -> (r: bool)
        ensures
            r == self.link.network.wowlan,
    {
        self.link.network.wowlan
    }

    /// Clear WoWLAN triggers, e.g. after a WoWLAN wake or before shutdown.
    /// Returns whether an empty trigger set has to be sent; whatever comes of
    /// it, the triggers count as cleared.
    pub fn disarm_wowlan(&mut self) -> (r: bool)
        ensures
            r == old(self).wowlan.armed,
            *final(self) == (WifiIface { wowlan: WowlanState { armed: false }, ..*old(self) }),
    {
        let armed = self.wowlan.armed;
        self.wowlan.armed = false;
        armed
    }

    /// This interface at its end: nothing runs in the firmware, nothing is
    /// armed.
    pub open spec fn ended(self) -> WifiIface {
        WifiIface {
            scan: self.scan_stopped(),
            wowlan: WowlanState { armed: false },
            ..self
        }
    }

    /// Cleanly end: returns whether a scheduled scan has to be stopped and
    /// whether WoWLAN triggers have to be cleared before the disconnect.
    pub fn shutdown(&mut self) -> (r: (bool, bool))
        ensures
            r.0 == old(self).scan.sched_scan_active,
            r.1 == old(self).wowlan.armed,
            *final(self) == old(self).ended(),
    {
        let stop = self.stop_sched_scan();
        let disarm = self.disarm_wowlan();
        (stop, disarm)
    }
}

/// Whether `after` and `r` are what another network list makes of `before`.
pub open spec fn update_outcome(
    before: WifiIface,
    after: WifiIface,
    networks: Vec<NetworkConfig>,
    r: UpdateStep,
) -> bool {
    let new = config::network_views(networks@);
    let connected = before.state.spec_is_connected();
    if new == before.core.config.nets() {
        r == UpdateStep::Unchanged && after == before
    } else if connected && WifiIface::keeps(new, before.link.network.ssid@) {
        &&& r == UpdateStep::Kept
        &&& after == (WifiIface {
            core: before.core_with(networks),
            scan: before.rotation_reset(),
            ..before
        })
    } else {
        &&& r == UpdateStep::Reset {
            stop_scan: before.scan.sched_scan_active,
            disarm: connected && before.wowlan.armed,
            disconnect: connected,
        }
        &&& after.core == before.core_with(networks)
        &&& after.state == WifiState::Init
        &&& after.link.is_reset()
        &&& after.link.network@ == if new.len() > 0 {
            new[0]
        } else {
            Network::named(Seq::empty())
        }
        &&& after.auth.is_reset()
        &&& after.roam.is_reset()
        &&& after.roam.cqm_armed == before.roam.cqm_armed
        &&& after.roam.background_scan == before.roam.background_scan
        &&& after.roam.roam_scan_count == before.roam.roam_scan_count
        &&& after.scan == (ScanEngine {
            scan_retry_interval: RETRY_BACKOFF_INIT_SEC,
            sched_scan_active: false,
            sched_scan_stop_pending: before.scan_stopped().sched_scan_stop_pending,
            ..ScanEngine::fresh()
        })
        &&& after.wowlan.armed == (before.wowlan.armed && !connected)
        &&& after.caps == before.caps
        &&& after.pmksa_cache == before.pmksa_cache
        &&& after.last_error == before.last_error
    }
}

/// Whether `r` is the step that arms the WoWLAN triggers of an interface.
pub open spec fn arm_outcome(iface: WifiIface, r: ArmStep) -> bool {
    let wanted = policy::wanted_triggers(iface.caps.wowlan_supported_triggers@);
    match r {
        ArmStep::Armed => iface.wowlan.armed,
        ArmStep::Unsupported => !iface.wowlan.armed && wanted.len() == 0,
        ArmStep::Request(t) => !iface.wowlan.armed && wanted.len() > 0 && t@ == wanted,
    }
}

} // verus!
