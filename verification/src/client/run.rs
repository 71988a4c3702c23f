//! The connection flow: what to do next in each state, what to wait for, and
//! which state changes callers see.

use vstd::prelude::*;

use crate::client::sched_scan::{SchedScanRequest, StartOutcome};
use crate::client::state::{
    Link, RoamEngine, ScanEngine, WifiIface, WifiState, WiphyCaps,
    RETRY_BACKOFF_INIT_SEC, RETRY_BACKOFF_MAX_SEC, SCHED_SCAN_WATCHDOG_SECS,
};
use crate::config;
use crate::config::{Network, NetworkConfig};
use crate::error::{ErrorKind, WifiError};
use crate::scan::BssInfo;

verus! {

/// How long (seconds) the echo of our own scheduled-scan stop may take before
/// it counts as lost.
pub const SCHED_SCAN_STOP_ECHO_TIMEOUT_SECS: u64 = 5;

/// Delay (seconds) before a retry after a failed authentication.
pub const RETRY_AUTH_SEC: u64 = 120;

/// How often (seconds) the signal is polled while connected, on drivers
/// without a connection quality monitor.
pub const ROAM_SIGNAL_CHECK_SECS: u64 = 5;

/// What the connection flow does next.
pub enum RunStep {
    /// Nothing is configured: sleep for a second.
    Idle,
    /// Authenticate with the selected BSS.
    Authenticate,
    /// Send a scan request.
    Scan,
    /// Wait for the scan to finish.
    WaitScan,
    /// Wait this many seconds for a scheduled-scan event.
    WaitSchedScan(u64),
    /// Wait this many seconds for an authentication event.
    WaitAuth(u64),
    /// Wait for an event while connected. `arm_cqm` asks to arm the
    /// connection quality monitor first.
    WaitConnected { arm_cqm: bool },
    /// Stop the scheduled scan where asked, then pump events for this many
    /// seconds. Consuming stale events here, before the next attempt starts,
    /// is what keeps the reconnect flow from tripping over them.
    Backoff { stop_scan: bool, secs: u64 },
}

/// How long to wait for an event while connected.
#[derive(Debug, Clone, Copy, PartialEq, Eq, Structural)]
pub enum ConnectedWait {
    /// Until an event comes.
    Unbounded,
    /// Until the roaming engine's next background scan.
    Background,
    /// This many seconds, until the next signal poll.
    Poll(u64),
}

/// What a look at scan results gave.
pub enum ScanOutcome {
    /// A BSS of a configured network was selected.
    Selected(NetworkConfig, BssInfo),
    /// None was, or the results could not be had.
    NotSelected(WifiError),
}

/// What follows a finished scan.
pub enum ScanStep {
    /// Authenticate with the selected BSS.
    Authenticate,
    /// Scan again, on all frequencies.
    Scan,
    /// Start a scheduled scan; the error stands where it cannot be started.
    SchedScan(SchedScanRequest, WifiError),
}

/// What follows scheduled-scan results.
pub enum SchedResultStep {
    /// Stop the scheduled scan where asked, then authenticate with the
    /// selected BSS.
    Authenticate { stop_scan: bool },
    /// The firmware keeps scanning.
    Continue,
}

/// What follows another scheduled-scan event.
pub enum SchedStep {
    /// Nothing to do. The state says whether the scan was given up.
    Nothing,
    /// Start this scheduled scan.
    Start(SchedScanRequest),
    /// Stop the running scheduled scan.
    Stop,
}

/// The index of the first network whose hints are complete enough for a
/// scan-free connection attempt.
pub open spec fn first_hinted(networks: Seq<Network>) -> Option<int>
    decreases networks.len(),
{
    if networks.len() == 0 {
        None
    } else if networks[0].hints.scan_free() {
        Some(0)
    } else {
        match first_hinted(networks.drop_first()) {
            Some(i) => Some(i + 1),
            None => None,
        }
    }
}

/// The backoff after one more failed attempt.
pub open spec fn next_backoff(secs: u64) -> u64 {
    if 2 * secs < RETRY_BACKOFF_MAX_SEC {
        (2 * secs) as u64
    } else {
        RETRY_BACKOFF_MAX_SEC
    }
}

/// The error of a closed event channel.
pub fn channel_closed() -> (e: WifiError)
    ensures
        e.is(ErrorKind::Nl80211, "event channel closed"@),
{
    WifiError::new(ErrorKind::Nl80211, "event channel closed")
}

impl WifiIface {
    /// Pick the first configured network whose hints are complete enough for
    /// a scan-free connection attempt.
    pub fn scan_free_target(&self) -> (r: Option<(NetworkConfig, BssInfo)>)
        ensures
            match first_hinted(self.core.config.nets()) {
                Some(i) => {
                    &&& r matches Some((network, bss_info))
                    &&& network@ == self.core.config.nets()[i]
                    &&& network@.hints.describes(bss_info)
                },
                None => r is None,
            },
    {
        let networks = &self.core.config.networks;
        let ghost nets = self.core.config.nets();
        let mut i: usize = 0;
        assert(nets.subrange(0, nets.len() as int) =~= nets);
        while i < networks.len()
            invariant
                i <= networks.len(),
                nets == self.core.config.nets(),
                nets == config::network_views(networks@),
                first_hinted(nets) == match first_hinted(nets.subrange(i as int, nets.len() as int)) {
                    Some(k) => Some(k + i),
                    None => None,
                },
            decreases networks.len() - i,
        {
            let ghost rest = nets.subrange(i as int, nets.len() as int);
            assert(rest[0] == networks@[i as int]@);
            assert(rest.drop_first() =~= nets.subrange(i + 1, nets.len() as int));
            if let Some(bss_info) = networks[i].hints.bss_info() {
                return Some((networks[i].copy(), bss_info));
            }
            i += 1;
        }
        None
    }

    /// What the connection flow does next. With no configured networks the
    /// client idles: it never starts a scan with an empty SSID list. In the
    /// initial state complete hints select a BSS without a scan, once.
    pub fn next_step(&mut self) -> (r: RunStep)
        requires
            old(self).wf(),
        ensures
            final(self).wf(),
            run_outcome(*old(self), *final(self), r),
    {
        if self.core.config.networks.len() == 0 {
            self.state = WifiState::Init;
            return RunStep::Idle;
        }
        match self.state {
            WifiState::Init => {
                if self.scan.hint_scan {
                    if let Some((network, bss_info)) = self.scan_free_target() {
                        self.scan.hint_scan = false;
                        self.link.network = network;
                        self.link.bss_info = bss_info;
                        return RunStep::Authenticate;
                    }
                }
                RunStep::Scan
            },
            WifiState::Scanning => RunStep::WaitScan,
            WifiState::SchedScanWait => RunStep::WaitSchedScan(self.sched_scan_wait_secs()),
            WifiState::Authenticating => RunStep::WaitAuth(self.auth_wait_secs()),
            WifiState::ConnectedWithoutOffloadRekey | WifiState::ConnectedWithOffloadRekey => {
                RunStep::WaitConnected { arm_cqm: !self.roam.cqm_armed && self.ap_roams() }
            },
            WifiState::Failed | WifiState::FailedAuthentication => {
                let stop_scan = self.stop_sched_scan();
                let secs: u64 = if self.state == WifiState::FailedAuthentication {
                    RETRY_AUTH_SEC
                } else {
                    self.scan.scan_retry_interval
                };
                RunStep::Backoff { stop_scan, secs }
            },
        }
    }

    /// How long (seconds) to wait for a scheduled-scan event: for the echo of
    /// our own stop, for the chunk to run out, or until the watchdog catches a
    /// firmware that silently stopped.
    pub open spec fn spec_sched_scan_wait(self) -> u64 {
        if self.scan.sched_scan_stop_pending {
            SCHED_SCAN_STOP_ECHO_TIMEOUT_SECS
        } else if self.scan.sched_scan_more {
            self.scan.sched_scan_timeout_secs
        } else {
            SCHED_SCAN_WATCHDOG_SECS
        }
    }

    /// How long (seconds) to wait for a scheduled-scan event.
    fn sched_scan_wait_secs(&self) -> (r: u64)
        ensures
            r == self.spec_sched_scan_wait(),
    {
        if self.scan.sched_scan_stop_pending {
            SCHED_SCAN_STOP_ECHO_TIMEOUT_SECS
        } else if self.scan.sched_scan_more {
            self.scan.sched_scan_timeout_secs
        } else {
            SCHED_SCAN_WATCHDOG_SECS
        }
    }

    /// Whether signal-triggered roaming runs: only against an AP that
    /// advertises a managed-roaming capability (802.11v BSS Transition /
    /// 802.11k Neighbor Report).
    pub open spec fn spec_ap_roams(self) -> bool {
        self.link.network.roaming && (self.link.bss_info.btm_support
            || self.link.bss_info.rm_neighbor_report)
    }

    /// Whether signal-triggered roaming runs.
    fn ap_roams(&self) -> (r: bool)
        ensures
            r == self.spec_ap_roams(),
    {
        self.link.network.roaming && self.link.bss_info.ap_supports_signal_roam()
    }

    /// How long to wait for an event while connected, once it was tried to
    /// arm the connection quality monitor (`armed`, where that was asked for).
    /// A low-frequency background scan is kept as a safety net for cases the
    /// monitor cannot catch; drivers without it fall back to polling the
    /// signal. Neither runs for an AP without managed roaming.
    pub fn connected_wait(&mut self, armed: Option<bool>) -> (r: ConnectedWait)
        requires
            old(self).wf(),
        ensures
            final(self).wf(),
            ({
                let cqm_armed = match armed {
                    Some(a) => a,
                    None => old(self).roam.cqm_armed,
                };
                &&& r == if !old(self).spec_ap_roams() {
                    ConnectedWait::Unbounded
                } else if cqm_armed {
                    ConnectedWait::Background
                } else {
                    ConnectedWait::Poll(ROAM_SIGNAL_CHECK_SECS)
                }
                &&& r matches ConnectedWait::Poll(secs) ==> secs == 5
                &&& *final(self) == (WifiIface {
                    roam: RoamEngine { cqm_armed, ..old(self).roam },
                    ..*old(self)
                })
            }),
    {
        if let Some(a) = armed {
            self.roam.cqm_armed = a;
        }
        if !self.ap_roams() {
            ConnectedWait::Unbounded
        } else if self.roam.cqm_armed {
            ConnectedWait::Background
        } else {
            ConnectedWait::Poll(ROAM_SIGNAL_CHECK_SECS)
        }
    }

    /// Whether a roaming tick is a background scan (rather than a signal
    /// poll).
    pub fn tick_scans(&self) -> (r: bool)
        ensures
            r == self.roam.cqm_armed,
    {
        self.roam.cqm_armed
    }

    /// A scan request was sent.
    pub fn scan_requested(&mut self)
        ensures
            *final(self) == (WifiIface { state: WifiState::Scanning, ..*old(self) }),
    {
        self.state = WifiState::Scanning;
    }

    /// An authentication request was sent.
    pub fn auth_requested(&mut self)
        ensures
            *final(self) == (WifiIface { state: WifiState::Authenticating, ..*old(self) }),
    {
        self.state = WifiState::Authenticating;
    }

    /// The scan finished. Returns whether its results are for the roaming
    /// engine: they are evaluated while staying on the current BSS.
    pub fn takes_roam_results(&mut self) -> (r: bool)
        ensures
            r == old(self).roam.roam_scan,
            *final(self) == (WifiIface {
                roam: RoamEngine { roam_scan: false, ..old(self).roam },
                ..*old(self)
            }),
    {
        let roam = self.roam.roam_scan;
        self.roam.roam_scan = false;
        roam
    }

    /// This interface once the roaming engine is done with its scan results.
    pub open spec fn spec_roam_scan_finished(self) -> WifiIface {
        if self.roam.roam_scan {
            self
        } else {
            WifiIface {
                roam: RoamEngine { pre_roam_state: None, ..self.roam },
                state: match self.roam.pre_roam_state {
                    Some(prev) if self.state == WifiState::Scanning => prev,
                    _ => self.state,
                },
                ..self
            }
        }
    }

    /// The roaming engine is done with its scan results. When it stays on the
    /// current BSS (or failed to gather candidates), the connected state
    /// recorded before the scan is restored: otherwise the results would be
    /// taken for a fresh connection attempt to the AP the client is already
    /// connected to. A fallback to a full scan that is already in flight keeps
    /// scanning.
    pub fn roam_scan_finished(&mut self)
        ensures
            *final(self) == old(self).spec_roam_scan_finished(),
    {
        if self.roam.roam_scan {
            return ;
        }
        if let Some(prev) = self.roam.pre_roam_state {
            if self.state == WifiState::Scanning {
                self.state = prev;
            }
        }
        self.roam.pre_roam_state = None;
    }

    /// The scan engine at the start of a fresh PNO session: from the first
    /// hidden SSID, with reset rotation timing.
    pub open spec fn fresh_pno(self) -> ScanEngine {
        ScanEngine {
            sched_scan_cursor: 0,
            sched_scan_more: false,
            sched_scan_rotate: false,
            sched_scan_first: true,
            ..self.scan
        }
    }

    /// This interface with a BSS selected, and the scan-retry backoff reset.
    pub open spec fn selected(self, network: NetworkConfig, bss_info: BssInfo) -> WifiIface {
        WifiIface {
            link: Link { network, bss_info, ..self.link },
            scan: ScanEngine { scan_retry_interval: RETRY_BACKOFF_INIT_SEC, ..self.scan },
            ..self
        }
    }

    /// What a finished scan leads to. A hinted-frequency scan that missed is
    /// retried once with a full scan. Where no configured SSID was found, the
    /// periodic scanning is handed over to the firmware (PNO) when supported;
    /// otherwise the error is returned, and host-side scans go on with
    /// exponential backoff.
    pub fn scan_finished(&mut self, outcome: ScanOutcome) -> (r: Result<ScanStep, WifiError>)
        requires
            old(self).wf(),
        ensures
            final(self).wf(),
            scan_outcome(*old(self), *final(self), outcome, r),
    {
        match outcome {
            ScanOutcome::Selected(network, bss_info) => {
                self.link.network = network;
                self.link.bss_info = bss_info;
                self.scan.scan_retry_interval = RETRY_BACKOFF_INIT_SEC;
                Ok(ScanStep::Authenticate)
            },
            ScanOutcome::NotSelected(e) => {
                if e.kind != ErrorKind::SsidNotFound {
                    return Err(e);
                }
                if self.scan.hint_scan {
                    self.scan.hint_scan = false;
                    return Ok(ScanStep::Scan);
                }
                self.scan.sched_scan_cursor = 0;
                self.scan.sched_scan_more = false;
                self.scan.sched_scan_rotate = false;
                self.scan.sched_scan_first = true;
                match self.start_sched_scan() {
                    Some(req) => Ok(ScanStep::SchedScan(req, e)),
                    None => Err(e),
                }
            },
        }
    }

    /// What came of the request for a scheduled scan after a scan without a
    /// match. Returns whether it runs.
    pub fn sched_scan_entered(&mut self, outcome: StartOutcome) -> (r: bool)
        requires
            old(self).wf(),
        ensures
            final(self).wf(),
            r == (outcome == StartOutcome::Started),
            start_outcome(*old(self), *final(self), outcome, WifiState::SchedScanWait, old(self).state),
    {
        let running = self.sched_scan_started(outcome);
        if running {
            self.state = WifiState::SchedScanWait;
        }
        running
    }

    /// What came of the request to rotate or restart a scheduled scan: where
    /// it does not run, host-side backoff takes over.
    pub fn sched_scan_restarted(&mut self, outcome: StartOutcome)
        requires
            old(self).wf(),
        ensures
            final(self).wf(),
            start_outcome(*old(self), *final(self), outcome, old(self).state, WifiState::Failed),
    {
        if !self.sched_scan_started(outcome) {
            self.state = WifiState::Failed;
        }
    }

    /// Ask for the next scheduled scan, or give up where none can be asked
    /// for.
    fn restart_sched_scan(&mut self) -> (r: SchedStep)
        requires
            old(self).wf(),
        ensures
            final(self).wf(),
            restart_outcome(*old(self), *final(self), r),
    {
        match self.start_sched_scan() {
            Some(req) => SchedStep::Start(req),
            None => {
                self.state = WifiState::Failed;
                SchedStep::Nothing
            },
        }
    }

    /// A scheduled scan stopped while its results were waited for: the echo of
    /// our own stop request rotates to the next chunk where that was asked
    /// for; a scan that the kernel or firmware aborted on its own (e.g. after
    /// a regulatory change) is restarted.
    pub fn sched_scan_stopped(&mut self) -> (r: SchedStep)
        requires
            old(self).wf(),
        ensures
            final(self).wf(),
            if old(self).scan.sched_scan_stop_pending {
                echo_outcome(*old(self), *final(self), r)
            } else {
                restart_outcome(
                    WifiIface {
                        scan: ScanEngine { sched_scan_active: false, ..old(self).scan },
                        ..*old(self)
                    },
                    *final(self),
                    r,
                )
            },
    {
        if self.scan.sched_scan_stop_pending {
            return self.stop_echoed();
        }
        self.scan.sched_scan_active = false;
        self.restart_sched_scan()
    }

    /// The stop of a scheduled scan is through, or its echo was lost: rotate
    /// where that was asked for.
    fn stop_echoed(&mut self) -> (r: SchedStep)
        requires
            old(self).wf(),
        ensures
            final(self).wf(),
            echo_outcome(*old(self), *final(self), r),
    {
        self.scan.sched_scan_stop_pending = false;
        if !self.scan.sched_scan_rotate {
            return SchedStep::Nothing;
        }
        self.scan.sched_scan_rotate = false;
        self.restart_sched_scan()
    }

    /// No scheduled-scan event came in time: a lost stop echo forces the
    /// rotation that was in flight, a chunk that ran long enough is stopped so
    /// that its echo starts the next one, and otherwise host scans take over.
    pub fn sched_scan_timed_out(&mut self) -> (r: SchedStep)
        requires
            old(self).wf(),
        ensures
            final(self).wf(),
            if old(self).scan.sched_scan_stop_pending {
                echo_outcome(*old(self), *final(self), r)
            } else if old(self).scan.sched_scan_more {
                &&& if old(self).scan.sched_scan_active {
                    r is Stop
                } else {
                    r is Nothing
                }
                &&& *final(self) == (WifiIface {
                    scan: ScanEngine { sched_scan_rotate: true, ..old(self).scan_stopped() },
                    ..*old(self)
                })
            } else {
                r is Nothing && *final(self) == (WifiIface {
                    state: WifiState::Failed,
                    ..*old(self)
                })
            },
    {
        if self.scan.sched_scan_stop_pending {
            return self.stop_echoed();
        }
        if self.scan.sched_scan_more {
            self.scan.sched_scan_rotate = true;
            if self.stop_sched_scan() {
                return SchedStep::Stop;
            }
            return SchedStep::Nothing;
        }
        self.state = WifiState::Failed;
        SchedStep::Nothing
    }

    /// Scheduled-scan results came. Where a configured SSID is among them, the
    /// firmware scan is stopped and the connection begins; otherwise the
    /// firmware keeps scanning and wakes us again with the next results.
    pub fn handle_sched_scan_results(&mut self, outcome: ScanOutcome) -> (r: Result<
        SchedResultStep,
        WifiError,
    >)
        requires
            old(self).wf(),
        ensures
            final(self).wf(),
            match outcome {
                ScanOutcome::Selected(network, bss_info) => {
                    let before = old(self).selected(network, bss_info);
                    &&& r matches Ok(SchedResultStep::Authenticate { stop_scan })
                    &&& stop_scan == old(self).scan.sched_scan_active
                    &&& *final(self) == (WifiIface {
                        scan: ScanEngine { sched_scan_rotate: false, ..before.scan_stopped() },
                        ..before
                    })
                },
                ScanOutcome::NotSelected(e) => {
                    &&& if e.kind == ErrorKind::SsidNotFound {
                        r matches Ok(SchedResultStep::Continue)
                    } else {
                        r == Err::<SchedResultStep, WifiError>(e)
                    }
                    &&& *final(self) == *old(self)
                },
            },
    {
        match outcome {
            ScanOutcome::Selected(network, bss_info) => {
                self.link.network = network;
                self.link.bss_info = bss_info;
                self.scan.sched_scan_rotate = false;
                let stop_scan = self.stop_sched_scan();
                self.scan.scan_retry_interval = RETRY_BACKOFF_INIT_SEC;
                Ok(SchedResultStep::Authenticate { stop_scan })
            },
            ScanOutcome::NotSelected(e) => if e.kind == ErrorKind::SsidNotFound {
                Ok(SchedResultStep::Continue)
            } else {
                Err(e)
            },
        }
    }

    /// Whether a backoff goes on after an event: an event that advanced the
    /// state machine is honoured instead of the retry.
    pub fn still_failed(&self) -> (r: bool)
        ensures
            r == (self.state == WifiState::Failed || self.state
                == WifiState::FailedAuthentication),
    {
        matches!(self.state, WifiState::Failed | WifiState::FailedAuthentication)
    }

    /// The backoff elapsed: try again. Exponential backoff after a short one:
    /// 10 -> 20 -> 40 -> ... -> 300.
    pub fn backoff_elapsed(&mut self)
        requires
            old(self).wf(),
        ensures
            final(self).wf(),
            *final(self) == (WifiIface {
                scan: if old(self).state == WifiState::Failed {
                    ScanEngine {
                        scan_retry_interval: next_backoff(old(self).scan.scan_retry_interval),
                        ..old(self).scan
                    }
                } else {
                    old(self).scan
                },
                state: WifiState::Init,
                ..*old(self)
            }),
    {
        if self.state == WifiState::Failed {
            let double: u64 = self.scan.scan_retry_interval * 2;
            self.scan.scan_retry_interval = if double < RETRY_BACKOFF_MAX_SEC {
                double
            } else {
                RETRY_BACKOFF_MAX_SEC
            };
        }
        self.state = WifiState::Init;
    }

    /// The state to which an in-flight roam scan will return. A scan that
    /// decides to stay is invisible to callers, so this is the connected state
    /// (or the pre-scan state when a call starts mid-scan).
    pub open spec fn spec_baseline(self) -> WifiState {
        match self.roam.pre_roam_state {
            Some(prev) if self.state == WifiState::Scanning => prev,
            _ => self.state,
        }
    }

    /// The state that a call to drive the connection starts from, as callers
    /// see it.
    pub fn baseline(&self) -> (r: WifiState)
        ensures
            r == self.spec_baseline(),
    {
        if self.state == WifiState::Scanning {
            if let Some(prev) = self.roam.pre_roam_state {
                return prev;
            }
        }
        self.state
    }

    /// Whether a step that began in state `prev` brought a state change worth
    /// reporting. Roam scans started from the connected state are internal
    /// housekeeping: the round trip over a scan is not surfaced.
    pub open spec fn spec_surfaces(self, prev: WifiState, baseline: WifiState) -> bool {
        &&& self.state != prev
        &&& self.state != baseline
        &&& !(self.state == WifiState::Scanning && self.roam.pre_roam_state is Some)
    }

    /// Whether a step that began in state `prev` brought a state change worth
    /// reporting.
    pub fn surfaces(&self, prev: WifiState, baseline: WifiState) -> (r: bool)
        ensures
            r == self.spec_surfaces(prev, baseline),
    {
        let roaming_scan = self.state == WifiState::Scanning && self.roam.pre_roam_state.is_some();
        self.state != prev && self.state != baseline && !roaming_scan
    }

    /// A step failed: fall back to a retry state instead of failing hard.
    pub fn run_failed(&mut self)
        ensures
            *final(self) == (WifiIface {
                last_error: None,
                state: if old(self).state == WifiState::Authenticating {
                    WifiState::FailedAuthentication
                } else {
                    WifiState::Failed
                },
                ..*old(self)
            }),
    {
        self.last_error = None;
        self.state = if self.state == WifiState::Authenticating {
            WifiState::FailedAuthentication
        } else {
            WifiState::Failed
        };
    }
}

/// Whether `after` and `r` are the next step from `before`.
pub open spec fn run_outcome(before: WifiIface, after: WifiIface, r: RunStep) -> bool {
    if before.core.config.networks@.len() == 0 {
        r is Idle && after == (WifiIface { state: WifiState::Init, ..before })
    } else {
        match before.state {
            WifiState::Init => match first_hinted(before.core.config.nets()) {
                Some(i) if before.scan.hint_scan => {
                    &&& r is Authenticate
                    &&& after.link.network@ == before.core.config.nets()[i]
                    &&& after.link.network@.hints.describes(after.link.bss_info)
                    &&& after == (WifiIface {
                        scan: ScanEngine { hint_scan: false, ..before.scan },
                        link: Link {
                            network: after.link.network,
                            bss_info: after.link.bss_info,
                            ..before.link
                        },
                        ..before
                    })
                },
                _ => r is Scan && after == before,
            },
            WifiState::Scanning => r is WaitScan && after == before,
            WifiState::SchedScanWait => {
                r == RunStep::WaitSchedScan(before.spec_sched_scan_wait()) && after == before
            },
            WifiState::Authenticating => {
                r == RunStep::WaitAuth(before.spec_auth_wait()) && after == before
            },
            WifiState::ConnectedWithoutOffloadRekey | WifiState::ConnectedWithOffloadRekey => {
                &&& r == (RunStep::WaitConnected {
                    arm_cqm: !before.roam.cqm_armed && before.spec_ap_roams(),
                })
                &&& after == before
            },
            WifiState::Failed | WifiState::FailedAuthentication => {
                &&& r == (RunStep::Backoff {
                    stop_scan: before.scan.sched_scan_active,
                    secs: if before.state == WifiState::FailedAuthentication {
                        RETRY_AUTH_SEC
                    } else {
                        before.scan.scan_retry_interval
                    },
                })
                &&& after == (WifiIface { scan: before.scan_stopped(), ..before })
            },
        }
    }
}

/// Whether `after` and `r` are what a finished scan makes of `before`.
pub open spec fn scan_outcome(
    before: WifiIface,
    after: WifiIface,
    outcome: ScanOutcome,
    r: Result<ScanStep, WifiError>,
) -> bool {
    match outcome {
        ScanOutcome::Selected(network, bss_info) => {
            &&& r matches Ok(ScanStep::Authenticate)
            &&& after == before.selected(network, bss_info)
        },
        ScanOutcome::NotSelected(e) => if e.kind != ErrorKind::SsidNotFound {
            r == Err::<ScanStep, WifiError>(e) && after == before
        } else if before.scan.hint_scan {
            &&& r matches Ok(ScanStep::Scan)
            &&& after == (WifiIface {
                scan: ScanEngine { hint_scan: false, ..before.scan },
                ..before
            })
        } else {
            let fresh = WifiIface { scan: before.fresh_pno(), ..before };
            if fresh.can_sched_scan() {
                &&& r matches Ok(ScanStep::SchedScan(req, error))
                &&& error == e
                &&& fresh.asks_sched_scan(after, req)
            } else {
                r == Err::<ScanStep, WifiError>(e) && after == fresh
            }
        },
    }
}

/// Whether `after` is `before` after a request for a scheduled scan: in
/// `running` where it runs, else in `other`.
pub open spec fn start_outcome(
    before: WifiIface,
    after: WifiIface,
    outcome: StartOutcome,
    running: WifiState,
    other: WifiState,
) -> bool {
    after == match outcome {
        StartOutcome::Started => WifiIface {
            scan: before.chunk_started(),
            state: running,
            ..before
        },
        StartOutcome::Unsupported => WifiIface {
            caps: WiphyCaps { sched_scan_supported: false, ..before.caps },
            state: other,
            ..before
        },
        StartOutcome::Failed => WifiIface { state: other, ..before },
    }
}

/// Whether `after` and `r` ask for the next scheduled scan, or give up where
/// none can be asked for.
pub open spec fn restart_outcome(before: WifiIface, after: WifiIface, r: SchedStep) -> bool {
    if before.can_sched_scan() {
        r matches SchedStep::Start(req) && before.asks_sched_scan(after, req)
    } else {
        r is Nothing && after == (WifiIface { state: WifiState::Failed, ..before })
    }
}

/// Whether `after` and `r` are what the end of a stopped scheduled scan makes
/// of `before`.
pub open spec fn echo_outcome(before: WifiIface, after: WifiIface, r: SchedStep) -> bool {
    let stopped = WifiIface {
        scan: ScanEngine {
            sched_scan_stop_pending: false,
            sched_scan_rotate: false,
            ..before.scan
        },
        ..before
    };
    if before.scan.sched_scan_rotate {
        restart_outcome(stopped, after, r)
    } else {
        r is Nothing && after == stopped
    }
}

/// The backoff after a number of failed attempts in a row.
pub open spec fn backoff_after(failures: nat) -> u64
    decreases failures,
{
    if failures == 0 {
        RETRY_BACKOFF_INIT_SEC
    } else {
        next_backoff(backoff_after((failures - 1) as nat))
    }
}

/// The backoff never shrinks while attempts fail, never leaves its bounds, and
/// reaches its cap after five failures.
pub proof fn law_backoff_grows_to_cap(failures: nat)
    ensures
        RETRY_BACKOFF_INIT_SEC <= backoff_after(failures) <= RETRY_BACKOFF_MAX_SEC,
        backoff_after(failures) <= backoff_after(failures + 1),
        failures >= 5 ==> backoff_after(failures) == RETRY_BACKOFF_MAX_SEC,
    decreases failures,
{
    if failures > 0 {
        law_backoff_grows_to_cap((failures - 1) as nat);
    }
    assert(backoff_after(failures + 1) == next_backoff(backoff_after(failures)));
    if failures == 5 {
        reveal_with_fuel(backoff_after, 6);
    }
}

/// A roam scan that decides to stay is invisible: neither the scan nor the
/// return to the connected state is reported.
pub proof fn law_roam_scan_is_invisible(before: WifiIface, during: WifiIface)
    requires
        before.state.spec_is_connected(),
        during.state == WifiState::Scanning,
        during.roam.pre_roam_state == Some(before.state),
        !during.roam.roam_scan,
    ensures
        !during.spec_surfaces(before.state, before.spec_baseline()),
        ({
            let after = during.spec_roam_scan_finished();
            &&& after.state == before.state
            &&& !after.spec_surfaces(during.state, before.spec_baseline())
            &&& !after.spec_surfaces(during.state, during.spec_baseline())
        }),
{
}

} // verus!
