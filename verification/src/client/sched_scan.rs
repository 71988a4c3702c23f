//! Hardware scheduled scan (PNO): which SSIDs the firmware looks for, and for
//! how long.

use vstd::prelude::*;
use vstd::string::*;

use crate::client::state::{
    ScanEngine, WifiIface, WiphyCaps, RETRY_BACKOFF_MAX_SEC, SCHED_SCAN_INTERVAL_SEC,
};
use crate::client::wiphy;
use crate::client::wiphy::MAX_SCHED_SCAN_SSIDS;
use crate::config;
use crate::config::{Network, WifiConfig};
use crate::text;

verus! {

/// A scheduled-scan request.
#[derive(Debug, Clone, PartialEq, Eq)]
pub struct SchedScanRequest {
    /// Active probe for this chunk's hidden SSIDs plus the wildcard entry for
    /// visible networks.
    pub ssids: Vec<String>,
    /// Match sets wake the host only for configured SSIDs; none where more
    /// are configured than the driver can filter, so every scan result is
    /// reported instead of silently missing networks.
    pub match_ssids: Option<Vec<String>>,
    /// Seconds between scans.
    pub interval_sec: u32,
}

/// What came of a scheduled-scan request.
#[derive(Debug, Clone, Copy, PartialEq, Eq, Structural)]
pub enum StartOutcome {
    /// The firmware is scanning.
    Started,
    /// The driver has no scheduled scan (`-EOPNOTSUPP`).
    Unsupported,
    /// A transient failure (e.g. `-EBUSY`).
    Failed,
}

/// Errno `EOPNOTSUPP`, as a netlink error carries it.
pub const NEG_EOPNOTSUPP: i32 = -95;

/// What a refused scheduled-scan request tells, by the errno of the netlink
/// error where there is one. Netlink errors carry the negated errno.
pub fn start_refused(errno: Option<i32>) -> (r: StartOutcome)
    ensures
        r == if errno == Some(NEG_EOPNOTSUPP) {
            StartOutcome::Unsupported
        } else {
            StartOutcome::Failed
        },
        r == StartOutcome::Unsupported <==> errno == Some(-95i32),
{
    match errno {
        Some(code) if code == NEG_EOPNOTSUPP => StartOutcome::Unsupported,
        _ => StartOutcome::Failed,
    }
}

/// Whether a visible network is among networks.
pub open spec fn any_visible(networks: Seq<Network>) -> bool {
    exists|i: int| 0 <= i < networks.len() && !#[trigger] networks[i].hidden
}

/// How many SSIDs a request may carry.
pub open spec fn request_cap(caps: WiphyCaps) -> nat {
    if caps.max_sched_scan_ssids < MAX_SCHED_SCAN_SSIDS {
        caps.max_sched_scan_ssids as nat
    } else {
        MAX_SCHED_SCAN_SSIDS as nat
    }
}

/// How long the next chunk runs and how often it scans, after one that left
/// SSIDs over: half as long, half as often, and back to the start when the
/// interval outgrows the chunk.
pub open spec fn throttled(timeout: u64, interval: u32, cap: nat) -> (u64, u32) {
    let half = if timeout / 2 < 2 {
        2
    } else {
        (timeout / 2) as u64
    };
    let double = if interval * 2 > RETRY_BACKOFF_MAX_SEC {
        RETRY_BACKOFF_MAX_SEC as u32
    } else {
        (interval * 2) as u32
    };
    if half < double {
        ((cap * 2) as u64, SCHED_SCAN_INTERVAL_SEC)
    } else {
        (half, double)
    }
}

/// Whether a visible network is configured.
fn has_visible(config: &WifiConfig) -> (r: bool)
    ensures
        r == any_visible(config.nets()),
{
    let mut i: usize = 0;
    while i < config.networks.len()
        invariant
            i <= config.networks@.len(),
            forall|j: int| 0 <= j < i ==> (#[trigger] config.networks@[j]).hidden,
        decreases config.networks@.len() - i,
    {
        if !config.networks[i].hidden {
            assert(!config.nets()[i as int].hidden);
            return true;
        }
        i = i + 1;
    }
    false
}

/// Strings of the same texts.
fn owned(list: &Vec<&str>) -> (r: Vec<String>)
    ensures
        wiphy::texts(r@) == config::str_views(list@),
{
    let mut r: Vec<String> = Vec::new();
    let mut i: usize = 0;
    while i < list.len()
        invariant
            i <= list@.len(),
            r@.len() == i,
            forall|j: int| 0 <= j < i ==> (#[trigger] r@[j])@ == list@[j]@,
        decreases list@.len() - i,
    {
        r.push(text::text(list[i]));
        i = i + 1;
    }
    assert(wiphy::texts(r@) =~= config::str_views(list@));
    r
}

impl WifiIface {
    /// Whether a scheduled scan can be asked for: the wiphy supports it, and
    /// has a slot for hidden SSIDs beside the wildcard where there are any.
    pub open spec fn can_sched_scan(self) -> bool {
        let nets = self.core.config.nets();
        let cap = request_cap(self.caps);
        &&& self.caps.sched_scan_supported
        &&& cap > 0
        &&& config::hidden_of(nets).len() > 0 ==> wiphy::specific_cap(any_visible(nets), cap) > 0
    }

    /// The scan engine at the start of a chunk: a fresh rotation cycle resets
    /// interval and chunk timeout.
    pub open spec fn chunk_timing(self) -> ScanEngine {
        if self.scan.sched_scan_first {
            ScanEngine {
                sched_scan_interval_sec: SCHED_SCAN_INTERVAL_SEC,
                sched_scan_timeout_secs: (request_cap(self.caps) * 2) as u64,
                sched_scan_first: false,
                ..self.scan
            }
        } else {
            self.scan
        }
    }

    /// Whether `after` and `req` ask for the next chunk of configured SSIDs.
    pub open spec fn asks_sched_scan(self, after: WifiIface, req: SchedScanRequest) -> bool {
        let nets = self.core.config.nets();
        let hidden = config::hidden_of(nets);
        let wildcard = any_visible(nets);
        let per = wiphy::specific_cap(wildcard, request_cap(self.caps));
        let from = self.scan.sched_scan_cursor as nat;
        let more = wiphy::chunk_leaves_more(hidden, from, per);
        &&& wiphy::texts(req.ssids@) == wiphy::wildcard_entry(wildcard) + wiphy::chunk(
            hidden,
            from,
            per,
        )
        &&& req.interval_sec == self.chunk_timing().sched_scan_interval_sec
        &&& req.match_ssids is Some <==> 0 < self.caps.max_match_sets && nets.len()
            <= self.caps.max_match_sets
        &&& req.match_ssids matches Some(m) ==> wiphy::texts(m@) == config::ssids_of(nets)
        &&& after == (WifiIface {
            scan: ScanEngine {
                sched_scan_cursor: if more {
                    (from + per) as usize
                } else {
                    0
                },
                sched_scan_more: more,
                ..self.chunk_timing()
            },
            ..self
        })
    }

    /// Hand the periodic scanning over to the firmware (PNO): ask it to scan
    /// for a chunk of the configured SSIDs on a fixed interval while the host
    /// sleeps. The chunk reserves one slot for the wildcard probe when
    /// visible networks exist and rotates through hidden SSIDs within the
    /// driver's cap. None where no scheduled scan can be asked for: then
    /// nothing changes. A one-SSID PNO driver cannot probe hidden networks
    /// while reserving the wildcard slot.
    #[verifier::rlimit(40)]
    pub fn start_sched_scan(&mut self) -> (r: Option<SchedScanRequest>)
        requires
            old(self).wf(),
        ensures
            final(self).wf(),
            r is Some <==> old(self).can_sched_scan(),
            r is None ==> *final(self) == *old(self),
            r matches Some(req) ==> old(self).asks_sched_scan(*final(self), req),
    {
        if !self.caps.sched_scan_supported {
            return None;
        }
        let cap: usize = if self.caps.max_sched_scan_ssids < MAX_SCHED_SCAN_SSIDS {
            self.caps.max_sched_scan_ssids
        } else {
            MAX_SCHED_SCAN_SSIDS
        };
        if cap == 0 {
            return None;
        }
        let hidden_ssids = owned(&self.core.config.hidden_ssids());
        let wildcard = has_visible(&self.core.config);
        assert(wiphy::texts(hidden_ssids@).len() == hidden_ssids@.len());
        let specific: usize = if wildcard {
            cap - 1
        } else {
            cap
        };
        if hidden_ssids.len() > 0 && specific == 0 {
            return None;
        }
        if self.scan.sched_scan_first {
            self.scan.sched_scan_interval_sec = SCHED_SCAN_INTERVAL_SEC;
            self.scan.sched_scan_timeout_secs = (cap as u64) * 2;
            self.scan.sched_scan_first = false;
        }
        let mut cursor: usize = self.scan.sched_scan_cursor;
        let (ssids, more) = wiphy::next_sched_scan_ssids(
            hidden_ssids.as_slice(),
            wildcard,
            &mut cursor,
            cap,
        );
        self.scan.sched_scan_cursor = cursor;
        self.scan.sched_scan_more = more;
        let match_ssids = if self.caps.max_match_sets > 0 && self.core.config.networks.len()
            <= self.caps.max_match_sets {
            Some(owned(&self.core.config.ssids()))
        } else {
            None
        };
        Some(
            SchedScanRequest {
                ssids,
                match_ssids,
                interval_sec: self.scan.sched_scan_interval_sec,
            },
        )
    }

    /// The scan engine after a chunk was started: the rotation is throttled
    /// while SSIDs remain; full coverage in one chunk makes the next start
    /// begin a fresh cycle.
    pub open spec fn chunk_started(self) -> ScanEngine {
        if self.scan.sched_scan_more {
            let (timeout, interval) = throttled(
                self.scan.sched_scan_timeout_secs,
                self.scan.sched_scan_interval_sec,
                request_cap(self.caps),
            );
            ScanEngine {
                sched_scan_active: true,
                sched_scan_timeout_secs: timeout,
                sched_scan_interval_sec: interval,
                ..self.scan
            }
        } else {
            ScanEngine { sched_scan_active: true, sched_scan_first: true, ..self.scan }
        }
    }

    /// What came of a scheduled-scan request. Returns whether a scheduled
    /// scan is now running. A driver without the op falls back to host-side
    /// scans with exponential backoff for good; a transient failure keeps PNO
    /// enabled for the next scan cycle.
    pub fn sched_scan_started(&mut self, outcome: StartOutcome) -> (r: bool)
        requires
            old(self).wf(),
        ensures
            final(self).wf(),
            r == (outcome == StartOutcome::Started),
            *final(self) == match outcome {
                StartOutcome::Started => WifiIface {
                    scan: old(self).chunk_started(),
                    ..*old(self)
                },
                StartOutcome::Unsupported => WifiIface {
                    caps: WiphyCaps { sched_scan_supported: false, ..old(self).caps },
                    ..*old(self)
                },
                StartOutcome::Failed => *old(self),
            },
    {
        match outcome {
            StartOutcome::Started => {
                self.scan.sched_scan_active = true;
                if self.scan.sched_scan_more {
                    // Throttle the rotation: each subsequent chunk runs for a
                    // shorter timeout with a longer scan interval, resetting
                    // when the interval grows too large.
                    let half: u64 = self.scan.sched_scan_timeout_secs / 2;
                    let timeout: u64 = if half < 2 {
                        2
                    } else {
                        half
                    };
                    let double: u32 = self.scan.sched_scan_interval_sec * 2;
                    let interval: u32 = if double > 300 {
                        300
                    } else {
                        double
                    };
                    if timeout < interval as u64 {
                        let cap: usize = if self.caps.max_sched_scan_ssids < MAX_SCHED_SCAN_SSIDS {
                            self.caps.max_sched_scan_ssids
                        } else {
                            MAX_SCHED_SCAN_SSIDS
                        };
                        self.scan.sched_scan_interval_sec = SCHED_SCAN_INTERVAL_SEC;
                        self.scan.sched_scan_timeout_secs = (cap as u64) * 2;
                    } else {
                        self.scan.sched_scan_timeout_secs = timeout;
                        self.scan.sched_scan_interval_sec = interval;
                    }
                } else {
                    // Full coverage in one chunk: the next start begins a
                    // fresh cycle with reset timing.
                    self.scan.sched_scan_first = true;
                }
                true
            },
            StartOutcome::Unsupported => {
                self.caps.sched_scan_supported = false;
                false
            },
            StartOutcome::Failed => false,
        }
    }
}

} // verus!
