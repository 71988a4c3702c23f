//! The daemon's bookkeeping while its interfaces run, and how it ends.

use vstd::prelude::*;

use crate::config;
use crate::daemon::config::{Entry, WifiEntry};
use crate::error::{ErrorKind, WifiError};
use crate::text;

verus! {

/// The SSID whose IP configuration was last applied per interface; lets the
/// daemon re-apply when a later connection lands on a different configured
/// network.
pub struct AppliedSsids {
    pub list: Vec<(String, String)>,
}

/// What to do when a connection lands.
pub enum LandedStep {
    /// Nothing: the interface has no current SSID.
    NoSsid,
    /// Nothing: the configuration of the network is applied already.
    Applied,
    /// Apply the IP configuration of this entry.
    Apply(WifiEntry),
    /// No entry is configured for the network. It never falls back to another
    /// network's configuration silently.
    NoEntry,
}

/// The SSIDs by interface as plain data: the first pair of an interface
/// counts.
pub open spec fn applied(list: Seq<(String, String)>) -> Map<Seq<char>, Seq<char>>
    decreases list.len(),
{
    if list.len() == 0 {
        Map::empty()
    } else {
        applied(list.drop_first()).insert(list[0].0@, list[0].1@)
    }
}

/// The first entry of the first group of an interface that has an SSID.
pub open spec fn entry_for(
    groups: Seq<(String, Vec<WifiEntry>)>,
    iface_name: Seq<char>,
    ssid: Seq<char>,
) -> Option<Entry>
    decreases groups.len(),
{
    if groups.len() == 0 {
        None
    } else if groups[0].0@ == iface_name {
        entry_named(groups[0].1@, ssid)
    } else {
        entry_for(groups.drop_first(), iface_name, ssid)
    }
}

/// The first entry that has an SSID.
pub open spec fn entry_named(entries: Seq<WifiEntry>, ssid: Seq<char>) -> Option<Entry>
    decreases entries.len(),
{
    if entries.len() == 0 {
        None
    } else if entries[0].ssid@ == ssid {
        Some(entries[0]@)
    } else {
        entry_named(entries.drop_first(), ssid)
    }
}

/// Look for the first entry that has an SSID.
fn find_entry(entries: &Vec<WifiEntry>, ssid: &String) -> (r: Option<WifiEntry>)
    ensures
        match r {
            Some(e) => entry_named(entries@, ssid@) == Some(e@),
            None => entry_named(entries@, ssid@) is None,
        },
{
    let mut i: usize = 0;
    assert(entries@.skip(0) =~= entries@);
    while i < entries.len()
        invariant
            i <= entries@.len(),
            entry_named(entries@, ssid@) == entry_named(entries@.skip(i as int), ssid@),
        decreases entries.len() - i,
    {
        assert(entries@.skip(i as int).drop_first() =~= entries@.skip(i + 1));
        if text::same_text(&entries[i].ssid, ssid) {
            return Some(entries[i].copy());
        }
        i += 1;
    }
    None
}

/// Look for the entry of an interface and an SSID.
fn find_entry_of(
    groups: &Vec<(String, Vec<WifiEntry>)>,
    iface_name: &String,
    ssid: &String,
) -> (r: Option<WifiEntry>)
    ensures
        match r {
            Some(e) => entry_for(groups@, iface_name@, ssid@) == Some(e@),
            None => entry_for(groups@, iface_name@, ssid@) is None,
        },
{
    let mut i: usize = 0;
    assert(groups@.skip(0) =~= groups@);
    while i < groups.len()
        invariant
            i <= groups@.len(),
            entry_for(groups@, iface_name@, ssid@) == entry_for(
                groups@.skip(i as int),
                iface_name@,
                ssid@,
            ),
        decreases groups.len() - i,
    {
        assert(groups@.skip(i as int).drop_first() =~= groups@.skip(i + 1));
        if text::same_text(&groups[i].0, iface_name) {
            return find_entry(&groups[i].1, ssid);
        }
        i += 1;
    }
    None
}

impl View for AppliedSsids {
    type V = Map<Seq<char>, Seq<char>>;

    open spec fn view(&self) -> Map<Seq<char>, Seq<char>> {
        applied(self.list@)
    }
}

impl AppliedSsids {
    /// Nothing was applied yet.
    pub fn new() -> (r: Self)
        ensures
            r@ == Map::<Seq<char>, Seq<char>>::empty(),
    {
        AppliedSsids { list: Vec::new() }
    }

    /// Remember the SSID of an interface, unless it is remembered already.
    /// Returns whether it was not.
    fn note(&mut self, iface_name: &String, ssid: &String) -> (r: bool)
        ensures
            r == !(old(self)@.contains_key(iface_name@) && old(self)@[iface_name@] == ssid@),
            final(self)@ == old(self)@.insert(iface_name@, ssid@),
    {
        let ghost before = self@;
        let mut i: usize = 0;
        assert(self.list@.skip(0) =~= self.list@);
        while i < self.list.len() && !text::same_text(&self.list[i].0, iface_name)
            invariant
                i <= self.list@.len(),
                before == self@,
                *self == *old(self),
                forall|k: int| 0 <= k < i ==> (#[trigger] self.list@[k]).0@ != iface_name@,
            decreases self.list.len() - i,
        {
            i += 1;
        }
        if i < self.list.len() {
            proof {
                lemma_applied_at(self.list@, i as int, iface_name@);
            }
            if text::same_text(&self.list[i].1, ssid) {
                assert(before.insert(iface_name@, ssid@) =~= before);
                return false;
            }
            self.list.set(i, (config::copy_text(iface_name), config::copy_text(ssid)));
            proof {
                lemma_applied_update(old(self).list@, i as int, self.list@[i as int]);
            }
        } else {
            proof {
                lemma_not_applied(self.list@, iface_name@);
            }
            self.list.insert(0, (config::copy_text(iface_name), config::copy_text(ssid)));
            assert(self.list@.drop_first() =~= old(self).list@);
        }
        true
    }

    /// A connection landed on an interface; `ssid` is the network it is
    /// connected to, where one is known. The IP configuration of the network
    /// is applied when it differs from the one applied last.
    pub fn connection_landed(
        &mut self,
        groups: &Vec<(String, Vec<WifiEntry>)>,
        iface_name: &String,
        ssid: Option<&String>,
    ) -> (r: LandedStep)
        ensures
            match ssid {
                None => r is NoSsid && final(self)@ == old(self)@,
                Some(ssid) => {
                    &&& final(self)@ == old(self)@.insert(iface_name@, ssid@)
                    &&& if old(self)@.contains_key(iface_name@) && old(self)@[iface_name@]
                        == ssid@ {
                        r is Applied
                    } else {
                        match entry_for(groups@, iface_name@, ssid@) {
                            Some(entry) => r matches LandedStep::Apply(e) && e@ == entry,
                            None => r is NoEntry,
                        }
                    }
                },
            },
    {
        match ssid {
            None => LandedStep::NoSsid,
            Some(ssid) => {
                if !self.note(iface_name, ssid) {
                    return LandedStep::Applied;
                }
                match find_entry_of(groups, iface_name, ssid) {
                    Some(entry) => LandedStep::Apply(entry),
                    None => LandedStep::NoEntry,
                }
            },
        }
    }
}

/// What the first pair of an interface says counts.
proof fn lemma_applied_at(list: Seq<(String, String)>, i: int, iface_name: Seq<char>)
    requires
        0 <= i < list.len(),
        list[i].0@ == iface_name,
        forall|k: int| 0 <= k < i ==> (#[trigger] list[k]).0@ != iface_name,
    ensures
        applied(list).contains_key(iface_name),
        applied(list)[iface_name] == list[i].1@,
    decreases list.len(),
{
    if i > 0 {
        assert(list[0].0@ != iface_name);
        assert forall|k: int| 0 <= k < i - 1 implies (#[trigger] list.drop_first()[k]).0@
            != iface_name by {
            assert(list[k + 1].0@ != iface_name);
        }
        lemma_applied_at(list.drop_first(), i - 1, iface_name);
    }
}

/// Another SSID in the first pair of an interface is another SSID of it.
proof fn lemma_applied_update(list: Seq<(String, String)>, i: int, pair: (String, String))
    requires
        0 <= i < list.len(),
        list[i].0@ == pair.0@,
        forall|k: int| 0 <= k < i ==> (#[trigger] list[k]).0@ != pair.0@,
    ensures
        applied(list.update(i, pair)) == applied(list).insert(pair.0@, pair.1@),
    decreases list.len(),
{
    let new = list.update(i, pair);
    if i == 0 {
        assert(new.drop_first() =~= list.drop_first());
        assert(applied(new) =~= applied(list).insert(pair.0@, pair.1@));
    } else {
        assert(list[0].0@ != pair.0@);
        assert forall|k: int| 0 <= k < i - 1 implies (#[trigger] list.drop_first()[k]).0@
            != pair.0@ by {
            assert(list[k + 1].0@ != pair.0@);
        }
        lemma_applied_update(list.drop_first(), i - 1, pair);
        assert(new.drop_first() =~= list.drop_first().update(i - 1, pair));
        assert(applied(new) =~= applied(list).insert(pair.0@, pair.1@));
    }
}

/// An interface without a pair has nothing applied.
proof fn lemma_not_applied(list: Seq<(String, String)>, iface_name: Seq<char>)
    requires
        forall|k: int| 0 <= k < list.len() ==> (#[trigger] list[k]).0@ != iface_name,
    ensures
        !applied(list).contains_key(iface_name),
    decreases list.len(),
{
    if list.len() > 0 {
        assert(list[0].0@ != iface_name);
        assert forall|k: int| 0 <= k < list.drop_first().len() implies (
        #[trigger] list.drop_first()[k]).0@ != iface_name by {
            assert(list[k + 1].0@ != iface_name);
        }
        lemma_not_applied(list.drop_first(), iface_name);
    }
}

/// How an interface task ended.
#[derive(Debug)]
pub enum TaskResult {
    /// It was shut down; whether a connection was ever established.
    Finished(bool),
    /// It failed.
    Failed(WifiError),
    /// It panicked.
    Panicked,
}

/// Whether any task ever had a connection.
pub open spec fn any_connected(results: Seq<TaskResult>) -> bool {
    exists|i: int| 0 <= i < results.len() && #[trigger] results[i] == TaskResult::Finished(true)
}

/// The error of the first task that failed.
pub open spec fn first_failure(results: Seq<TaskResult>) -> Option<WifiError>
    decreases results.len(),
{
    if results.len() == 0 {
        None
    } else {
        match first_failure(results.drop_last()) {
            Some(e) => Some(e),
            None => match results.last() {
                TaskResult::Failed(e) => Some(e),
                _ => None,
            },
        }
    }
}

/// How the daemon ends: well where any connection was ever established, else
/// with the first task's error, else because it was shut down too early.
pub fn daemon_result(results: Vec<TaskResult>) -> (r: Result<(), WifiError>)
    ensures
        if any_connected(results@) {
            r is Ok
        } else {
            match first_failure(results@) {
                Some(e) => r == Err::<(), WifiError>(e),
                None => r matches Err(e) && e.is(
                    ErrorKind::ConnectFailed,
                    "shutdown before connection established"@,
                ),
            }
        },
{
    let ghost all = results@;
    let mut results = results;
    let mut connected = false;
    let mut error: Option<WifiError> = None;
    // Walked from the end, so the error of an earlier task replaces a later
    // one's.
    while results.len() > 0
        invariant
            results@.len() <= all.len(),
            results@ == all.take(results@.len() as int),
            connected == any_connected(all.skip(results@.len() as int)),
            first_failure(all) == match first_failure(results@) {
                Some(e) => Some(e),
                None => error,
            },
        decreases results.len(),
    {
        let ghost n = results@.len() as int;
        let ghost taken = results@;
        if let Some(last) = results.pop() {
            proof {
                assert(results@ =~= taken.drop_last());
                assert(results@ =~= all.take(n - 1));
                let rest = all.skip(n - 1);
                assert(rest[0] == last);
                assert(rest.drop_first() =~= all.skip(n));
                if any_connected(all.skip(n)) {
                    let k = choose|k: int|
                        0 <= k < all.skip(n).len() && #[trigger] all.skip(n)[k]
                            == TaskResult::Finished(true);
                    assert(rest[k + 1] == TaskResult::Finished(true));
                }
                if any_connected(rest) {
                    let k = choose|k: int|
                        0 <= k < rest.len() && #[trigger] rest[k] == TaskResult::Finished(true);
                    if k > 0 {
                        assert(all.skip(n)[k - 1] == TaskResult::Finished(true));
                    }
                }
            }
            match last {
                TaskResult::Finished(c) => {
                    connected = connected || c;
                },
                TaskResult::Failed(e) => {
                    error = Some(e);
                },
                TaskResult::Panicked => {},
            }
        }
    }
    assert(all.skip(0) =~= all);
    if connected {
        return Ok(());
    }
    match error {
        Some(e) => Err(e),
        None => Err(
            WifiError::new(ErrorKind::ConnectFailed, "shutdown before connection established"),
        ),
    }
}

/// What comes from a wired 802.1X port.
#[derive(Debug, Clone, Copy, PartialEq, Eq, Structural)]
pub enum WiredEvent {
    /// The port could not be opened.
    InitFailed,
    /// The port is authorized.
    Connected,
    /// The authentication failed, or an error ended it.
    Failed,
    /// The authentication goes on.
    Progress,
    /// The daemon shuts down.
    Shutdown,
}

/// What a wired 802.1X port does next.
#[derive(Debug, Clone, Copy, PartialEq, Eq, Structural)]
pub enum WiredStep {
    /// Wait for the next event of the port.
    Wait,
    /// Apply the port's IP configuration and hold until shutdown: the port
    /// stays authorized.
    Hold,
    /// Wait for the backoff, then open the port anew.
    Retry(u64),
    /// End; whether the port was ever authorized.
    End(bool),
}

/// Delay (seconds) before a wired port is tried again.
pub const WIRED_RETRY_SEC: u64 = 10;

/// A wired 802.1X port: whether it was ever authorized.
#[derive(Debug, Clone, Copy, PartialEq, Eq)]
pub struct WiredPort {
    pub connected: bool,
}

impl WiredPort {
    pub fn new() -> (r: Self)
        ensures
            !r.connected,
    {
        WiredPort { connected: false }
    }

    /// Drive one wired 802.1X port until shutdown: authenticate with EAP,
    /// apply the port's IP configuration, and retry with backoff on failure.
    pub fn handle(&mut self, event: WiredEvent) -> (r: WiredStep)
        ensures
            final(self).connected == (old(self).connected || event == WiredEvent::Connected),
            r == match event {
                WiredEvent::InitFailed | WiredEvent::Failed => WiredStep::Retry(WIRED_RETRY_SEC),
                WiredEvent::Connected => WiredStep::Hold,
                WiredEvent::Progress => WiredStep::Wait,
                WiredEvent::Shutdown => WiredStep::End(old(self).connected),
            },
            r matches WiredStep::Retry(secs) ==> secs == 10,
    {
        match event {
            WiredEvent::InitFailed | WiredEvent::Failed => WiredStep::Retry(WIRED_RETRY_SEC),
            WiredEvent::Connected => {
                self.connected = true;
                WiredStep::Hold
            },
            WiredEvent::Progress => WiredStep::Wait,
            WiredEvent::Shutdown => WiredStep::End(self.connected),
        }
    }
}

} // verus!
