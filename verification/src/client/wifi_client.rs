//! A client that manages one or more wifi-phy interfaces.

use vstd::prelude::*;

use crate::client::control;
use crate::client::control::{ArmStep, UpdateStep};
use crate::client::policy;
use crate::client::state::{WifiIface, WifiState, WowlanState};
use crate::config::{NetworkConfig, WifiConfig};
use crate::error::{ErrorKind, WifiError};
use crate::text;

verus! {

/// The state that an interface reached.
#[derive(Debug, Clone)]
#[non_exhaustive]
pub struct WifiIfaceState {
    pub iface_name: String,
    pub state: WifiState,
}

/// One state change of an interface.
///
/// `error` is set when the interface's state machine hit an error; the client
/// keeps running and will retry. Authentication failures such as a wrong
/// password are reported here with the exact error.
#[derive(Debug)]
pub struct WifiRunResult {
    pub iface_name: String,
    pub state: WifiState,
    pub error: Option<WifiError>,
}

/// A single WiFi client managing one or more wifi-phy interfaces.
///
/// All interfaces share one nl80211 socket and one multicast event
/// subscription. Each kernel event is routed to the interface it belongs to,
/// so concurrent interfaces do not see each other's scan, authentication,
/// disconnect and CQM events.
#[non_exhaustive]
pub struct WifiClient {
    pub ifaces: Vec<WifiIface>,
}

/// The interface names of interfaces.
pub open spec fn iface_names(ifaces: Seq<WifiIface>) -> Seq<Seq<char>> {
    Seq::new(ifaces.len(), |i: int| ifaces[i].core.config.iface_name@)
}

/// The interface names of configurations.
pub open spec fn config_names(configs: Seq<WifiConfig>) -> Seq<Seq<char>> {
    Seq::new(configs.len(), |i: int| configs[i].iface_name@)
}

/// The first name that occurs for the second time.
pub open spec fn first_repeated(names: Seq<Seq<char>>) -> Option<Seq<char>>
    decreases names.len(),
{
    if names.len() == 0 {
        None
    } else {
        match first_repeated(names.drop_last()) {
            Some(n) => Some(n),
            None => if names.drop_last().contains(names.last()) {
                Some(names.last())
            } else {
                None
            },
        }
    }
}

/// Why a client cannot manage interfaces of some names.
pub open spec fn names_error(names: Seq<Seq<char>>) -> Option<Seq<char>> {
    if names.len() == 0 {
        Some("WifiClient::init_multi(): at least one WifiConfig required"@)
    } else {
        match first_repeated(names) {
            Some(n) => Some("WifiClient::init_multi(): duplicate interface "@ + n),
            None => None,
        }
    }
}

/// Why no interface of a name is managed.
pub open spec fn not_found_text(iface_name: Seq<char>) -> Seq<char> {
    "wifi interface "@ + iface_name + " not found"@
}

/// Whether an event goes to the interface of an index. A few events lack the
/// interface index; they go to every interface.
pub open spec fn routed(own_index: u32, if_index: Option<u32>) -> bool {
    match if_index {
        Some(index) => own_index == index,
        None => true,
    }
}

/// Whether an event goes to the interface of an index.
pub fn routes_to(own_index: u32, if_index: Option<u32>) -> (r: bool)
    ensures
        r == routed(own_index, if_index),
{
    match if_index {
        Some(index) => own_index == index,
        None => true,
    }
}

/// Whether a name is among the first `n` of names.
fn occurs(names: &Vec<String>, n: usize, name: &String) -> (r: bool)
    requires
        n <= names@.len(),
    ensures
        r == text_views(names@).take(n as int).contains(name@),
{
    let mut i: usize = 0;
    while i < n
        invariant
            i <= n <= names@.len(),
            forall|k: int| 0 <= k < i ==> (#[trigger] names@[k])@ != name@,
        decreases n - i,
    {
        if text::same_text(&names[i], name) {
            assert(text_views(names@).take(n as int)[i as int] == name@);
            return true;
        }
        i += 1;
    }
    assert forall|k: int| 0 <= k < n implies text_views(names@).take(n as int)[k] != name@ by {
        assert(names@[k]@ != name@);
    }
    false
}

/// Texts as characters.
pub open spec fn text_views(texts: Seq<String>) -> Seq<Seq<char>> {
    Seq::new(texts.len(), |i: int| texts[i]@)
}

/// Check the names of the interfaces that a client is to manage.
fn check_names(names: &Vec<String>) -> (r: Result<(), WifiError>)
    ensures
        match names_error(text_views(names@)) {
            Some(msg) => r matches Err(e) && e.is(ErrorKind::InvalidConfig, msg),
            None => r is Ok,
        },
{
    if names.len() == 0 {
        return Err(
            WifiError::new(
                ErrorKind::InvalidConfig,
                "WifiClient::init_multi(): at least one WifiConfig required",
            ),
        );
    }
    let ghost views = text_views(names@);
    let mut i: usize = 0;
    while i < names.len()
        invariant
            i <= names@.len(),
            views == text_views(names@),
            views.len() > 0,
            first_repeated(views.take(i as int)) is None,
        decreases names.len() - i,
    {
        assert(views.take(i + 1).drop_last() =~= views.take(i as int));
        assert(views.take(i + 1).last() == names@[i as int]@);
        if occurs(names, i, &names[i]) {
            proof {
                lemma_first_repeated_prefix(views, i + 1);
            }
            let msg = text::text2(
                "WifiClient::init_multi(): duplicate interface ",
                names[i].as_str(),
            );
            return Err(WifiError::new(ErrorKind::InvalidConfig, msg.as_str()));
        }
        i += 1;
    }
    assert(views.take(views.len() as int) =~= views);
    Ok(())
}

/// What repeats first in the first `n` names repeats first in all of them.
proof fn lemma_first_repeated_prefix(names: Seq<Seq<char>>, n: int)
    requires
        0 <= n <= names.len(),
        first_repeated(names.take(n)) is Some,
    ensures
        first_repeated(names) == first_repeated(names.take(n)),
    decreases names.len() - n,
{
    if n == names.len() {
        assert(names.take(n) =~= names);
    } else {
        assert(names.take(n + 1).drop_last() =~= names.take(n));
        lemma_first_repeated_prefix(names, n + 1);
    }
}

/// Check the configurations of a client before its interfaces are probed:
/// there is at least one, and no interface is named twice.
pub fn check_configs(configs: &Vec<WifiConfig>) -> (r: Result<(), WifiError>)
    ensures
        match names_error(config_names(configs@)) {
            Some(msg) => r matches Err(e) && e.is(ErrorKind::InvalidConfig, msg),
            None => r is Ok,
        },
{
    let mut names: Vec<String> = Vec::new();
    let mut i: usize = 0;
    while i < configs.len()
        invariant
            i <= configs@.len(),
            text_views(names@) == config_names(configs@).take(i as int),
        decreases configs.len() - i,
    {
        let ghost views = text_views(names@);
        names.push(text::text(configs[i].iface_name.as_str()));
        i += 1;
        assert(text_views(names@) =~= views.push(config_names(configs@)[i - 1]));
        assert(text_views(names@) =~= config_names(configs@).take(i as int));
    }
    assert(text_views(names@) =~= config_names(configs@));
    check_names(&names)
}

impl WifiIface {
    /// What a run of this interface reports: the state it reached, or the
    /// error that came with it, once, under the interface's name.
    pub fn report(&mut self, result: Result<WifiState, WifiError>) -> (r: Result<
        WifiIfaceState,
        WifiError,
    >)
        requires
            old(self).wf(),
        ensures
            final(self).wf(),
            *final(self) == (WifiIface { last_error: None, ..*old(self) }),
            match (result, old(self).last_error) {
                (Ok(state), None) => {
                    &&& r matches Ok(s)
                    &&& s.state == state
                    &&& s.iface_name@ == old(self).core.config.iface_name@
                },
                (Ok(_), Some(cause)) | (Err(cause), _) => {
                    &&& r matches Err(e)
                    &&& e.kind == cause.kind
                    &&& e.msg@ == cause.msg@
                    &&& e.iface_name matches Some(n)
                    &&& n@ == old(self).core.config.iface_name@
                },
            },
    {
        let last = self.last_error.take();
        let name = text::text(self.core.config.iface_name.as_str());
        match result {
            Ok(state) => match last {
                Some(e) => Err(e.with_iface_name(name.as_str())),
                None => Ok(WifiIfaceState { iface_name: name, state }),
            },
            Err(e) => Err(e.with_iface_name(name.as_str())),
        }
    }

    /// What a run of this interface reports, state and error side by side.
    pub fn run_result(&mut self, result: Result<WifiState, WifiError>) -> (r: WifiRunResult)
        requires
            old(self).wf(),
        ensures
            final(self).wf(),
            *final(self) == (WifiIface { last_error: None, ..*old(self) }),
            r.iface_name@ == old(self).core.config.iface_name@,
            match result {
                Ok(state) => r.state == state && r.error == old(self).last_error,
                Err(e) => r.state == old(self).state && r.error == Some(e),
            },
    {
        let last = self.last_error.take();
        let iface_name = text::text(self.core.config.iface_name.as_str());
        match result {
            Ok(state) => WifiRunResult { iface_name, state, error: last },
            Err(e) => WifiRunResult { iface_name, state: self.state, error: Some(e) },
        }
    }
}

impl WifiClient {
    /// What holds of every client: it has interfaces, no two of one name, and
    /// each is sound.
    pub open spec fn wf(self) -> bool {
        &&& names_error(iface_names(self.ifaces@)) is None
        &&& forall|i: int| 0 <= i < self.ifaces@.len() ==> (#[trigger] self.ifaces@[i]).wf()
    }

    /// Whether the interface at a place has a name.
    pub open spec fn is_at(self, i: int, iface_name: Seq<char>) -> bool {
        0 <= i < self.ifaces@.len() && self.ifaces@[i].core.config.iface_name@ == iface_name
    }

    /// Create one client managing every given interface.
    pub fn init_multi(ifaces: Vec<WifiIface>) -> (r: Result<Self, WifiError>)
        requires
            forall|i: int| 0 <= i < ifaces@.len() ==> (#[trigger] ifaces@[i]).wf(),
        ensures
            match names_error(iface_names(ifaces@)) {
                Some(msg) => r matches Err(e) && e.is(ErrorKind::InvalidConfig, msg),
                None => r matches Ok(c) && c.ifaces@ == ifaces@ && c.wf(),
            },
    {
        let mut names: Vec<String> = Vec::new();
        let mut i: usize = 0;
        while i < ifaces.len()
            invariant
                i <= ifaces@.len(),
                text_views(names@) == iface_names(ifaces@).take(i as int),
            decreases ifaces.len() - i,
        {
            let ghost views = text_views(names@);
            names.push(text::text(ifaces[i].core.config.iface_name.as_str()));
            i += 1;
            assert(text_views(names@) =~= views.push(iface_names(ifaces@)[i - 1]));
            assert(text_views(names@) =~= iface_names(ifaces@).take(i as int));
        }
        assert(text_views(names@) =~= iface_names(ifaces@));
        match check_names(&names) {
            Ok(()) => Ok(WifiClient { ifaces }),
            Err(e) => Err(e),
        }
    }

    /// Create a client managing a single interface.
    pub fn init(iface: WifiIface) -> (r: Self)
        requires
            iface.wf(),
        ensures
            r.wf(),
            r.ifaces@ == seq![iface],
    {
        let mut ifaces: Vec<WifiIface> = Vec::new();
        ifaces.push(iface);
        assert(ifaces@ =~= seq![iface]);
        proof {
            let names = iface_names(ifaces@);
            assert(names.drop_last() =~= Seq::<Seq<char>>::empty());
            reveal_with_fuel(first_repeated, 2);
        }
        WifiClient { ifaces }
    }

    /// Whether there is anything to run.
    pub fn check_run(&self) -> (r: Result<(), WifiError>)
        ensures
            if self.ifaces@.len() == 0 {
                r matches Err(e) && e.is(ErrorKind::Config, "WifiClient has no interfaces"@)
            } else {
                r is Ok
            },
    {
        if self.ifaces.len() == 0 {
            return Err(WifiError::new(ErrorKind::Config, "WifiClient has no interfaces"));
        }
        Ok(())
    }

    /// The place of the interface of a name.
    pub fn position(&self, iface_name: &str) -> (r: Option<usize>)
        ensures
            match r {
                Some(i) => self.is_at(i as int, iface_name@),
                None => forall|i: int| !self.is_at(i, iface_name@),
            },
    {
        let name = text::text(iface_name);
        let mut i: usize = 0;
        while i < self.ifaces.len()
            invariant
                i <= self.ifaces@.len(),
                name@ == iface_name@,
                forall|k: int| 0 <= k < i ==> !self.is_at(k, iface_name@),
            decreases self.ifaces.len() - i,
        {
            if text::same_text(&self.ifaces[i].core.config.iface_name, &name) {
                return Some(i);
            }
            i += 1;
        }
        None
    }

    /// The place of the interface of a name, or the error that there is none.
    fn find(&self, iface_name: &str) -> (r: Result<usize, WifiError>)
        ensures
            match r {
                Ok(i) => self.is_at(i as int, iface_name@),
                Err(e) => {
                    &&& forall|i: int| !self.is_at(i, iface_name@)
                    &&& e.is(ErrorKind::InterfaceNotFound, not_found_text(iface_name@))
                },
            },
    {
        match self.position(iface_name) {
            Some(i) => Ok(i),
            None => {
                let mut msg = text::text2("wifi interface ", iface_name);
                msg.append(" not found");
                Err(WifiError::new(ErrorKind::InterfaceNotFound, msg.as_str()))
            },
        }
    }

    /// Whether the interface at `i` takes an event of an interface index.
    pub fn takes_event(&self, i: usize, if_index: Option<u32>) -> (r: bool)
        requires
            i < self.ifaces@.len(),
        ensures
            r == routed(self.ifaces@[i as int].core.if_index, if_index),
    {
        routes_to(self.ifaces[i].core.if_index, if_index)
    }

    pub fn current_ssid(&self, iface_name: &str) -> (r: Option<&str>)
        ensures
            match r {
                Some(s) => exists|i: int| #[trigger]
                    self.is_at(i, iface_name@) && s@ == self.ifaces@[i].link.network.ssid@,
                None => forall|i: int| !self.is_at(i, iface_name@),
            },
    {
        match self.position(iface_name) {
            Some(i) => {
                assert(self.is_at(i as int, iface_name@));
                Some(self.ifaces[i].current_ssid())
            },
            None => None,
        }
    }

    pub fn current_bssid(&self, iface_name: &str) -> (r: Option<[u8; 6]>)
        ensures
            match r {
                Some(b) => exists|i: int| #[trigger]
                    self.is_at(i, iface_name@) && b == self.ifaces@[i].link.bss_info.bssid,
                None => forall|i: int| !self.is_at(i, iface_name@),
            },
    {
        match self.position(iface_name) {
            Some(i) => {
                assert(self.is_at(i as int, iface_name@));
                Some(self.ifaces[i].current_bssid())
            },
            None => None,
        }
    }

    pub fn wowlan_supported(&self, iface_name: &str) -> (r: bool)
        requires
            self.wf(),
        ensures
            r == exists|i: int| #[trigger]
                self.is_at(i, iface_name@) && policy::wanted_triggers(
                    self.ifaces@[i].caps.wowlan_supported_triggers@,
                ).len() > 0,
    {
        match self.position(iface_name) {
            Some(i) => {
                proof {
                    self.lemma_one_place(iface_name@, i as int);
                }
                self.ifaces[i].wowlan_supported()
            },
            None => false,
        }
    }

    /// No two interfaces have one name.
    pub proof fn lemma_one_place(self, iface_name: Seq<char>, i: int)
        requires
            self.wf(),
            self.is_at(i, iface_name),
        ensures
            forall|k: int| self.is_at(k, iface_name) ==> k == i,
    {
        assert forall|k: int| self.is_at(k, iface_name) implies k == i by {
            if k < i {
                lemma_no_repeats(iface_names(self.ifaces@), k, i);
            } else if i < k {
                lemma_no_repeats(iface_names(self.ifaces@), i, k);
            }
        }
    }

    /// Replace the configured networks of an interface.
    pub fn update_networks(&mut self, iface_name: &str, networks: Vec<NetworkConfig>) -> (r: Result<
        UpdateStep,
        WifiError,
    >)
        requires
            old(self).wf(),
        ensures
            final(self).wf(),
            match r {
                Ok(step) => exists|i: int| #[trigger]
                    old(self).is_at(i, iface_name@) && {
                        &&& final(self).ifaces@ == old(self).ifaces@.update(
                            i,
                            final(self).ifaces@[i],
                        )
                        &&& control::update_outcome(
                            old(self).ifaces@[i],
                            final(self).ifaces@[i],
                            networks,
                            step,
                        )
                    },
                Err(e) => {
                    &&& forall|i: int| !old(self).is_at(i, iface_name@)
                    &&& e.is(ErrorKind::InterfaceNotFound, not_found_text(iface_name@))
                    &&& *final(self) == *old(self)
                },
            },
    {
        match self.find(iface_name) {
            Ok(i) => {
                let step = self.ifaces[i].update_networks(networks);
                assert(old(self).is_at(i as int, iface_name@));
                assert(iface_names(self.ifaces@) =~= iface_names(old(self).ifaces@));
                Ok(step)
            },
            Err(e) => Err(e),
        }
    }

    /// How to arm the WoWLAN triggers of an interface.
    pub fn arm_wowlan(&self, iface_name: &str) -> (r: Result<ArmStep, WifiError>)
        ensures
            match r {
                Ok(step) => exists|i: int| #[trigger]
                    self.is_at(i, iface_name@) && control::arm_outcome(self.ifaces@[i], step),
                Err(e) => {
                    &&& forall|i: int| !self.is_at(i, iface_name@)
                    &&& e.is(ErrorKind::InterfaceNotFound, not_found_text(iface_name@))
                },
            },
    {
        match self.find(iface_name) {
            Ok(i) => {
                assert(self.is_at(i as int, iface_name@));
                Ok(self.ifaces[i].arm_wowlan())
            },
            Err(e) => Err(e),
        }
    }

    /// Clear the WoWLAN triggers of an interface. Returns whether an empty
    /// trigger set has to be sent.
    pub fn disarm_wowlan_of(&mut self, iface_name: &str) -> (r: Result<bool, WifiError>)
        requires
            old(self).wf(),
        ensures
            final(self).wf(),
            match r {
                Ok(send) => exists|i: int| #[trigger]
                    old(self).is_at(i, iface_name@) && {
                        let iface = old(self).ifaces@[i];
                        &&& send == iface.wowlan.armed
                        &&& final(self).ifaces@ == old(self).ifaces@.update(
                            i,
                            (WifiIface { wowlan: WowlanState { armed: false }, ..iface }),
                        )
                    },
                Err(e) => {
                    &&& forall|i: int| !old(self).is_at(i, iface_name@)
                    &&& e.is(ErrorKind::InterfaceNotFound, not_found_text(iface_name@))
                    &&& *final(self) == *old(self)
                },
            },
    {
        match self.find(iface_name) {
            Ok(i) => {
                let send = self.ifaces[i].disarm_wowlan();
                assert(old(self).is_at(i as int, iface_name@));
                assert(iface_names(self.ifaces@) =~= iface_names(old(self).ifaces@));
                Ok(send)
            },
            Err(e) => Err(e),
        }
    }

    /// Cleanly end every managed interface. Returns for each whether its
    /// scheduled scan has to be stopped and whether its WoWLAN triggers have
    /// to be cleared, before it is disconnected.
    pub fn shutdown(&mut self) -> (r: Vec<(bool, bool)>)
        requires
            old(self).wf(),
        ensures
            final(self).wf(),
            final(self).ifaces@.len() == old(self).ifaces@.len(),
            r@.len() == old(self).ifaces@.len(),
            forall|i: int|
                0 <= i < old(self).ifaces@.len() ==> {
                    let before = #[trigger] old(self).ifaces@[i];
                    &&& r@[i] == (before.scan.sched_scan_active, before.wowlan.armed)
                    &&& final(self).ifaces@[i] == before.ended()
                },
    {
        let mut steps: Vec<(bool, bool)> = Vec::new();
        let ghost before = self.ifaces@;
        let mut i: usize = 0;
        while i < self.ifaces.len()
            invariant
                i <= self.ifaces@.len(),
                before == old(self).ifaces@,
                old(self).wf(),
                self.ifaces@.len() == before.len(),
                steps@.len() == i,
                forall|k: int|
                    0 <= k < i ==> {
                        &&& #[trigger] self.ifaces@[k] == before[k].ended()
                        &&& steps@[k] == (
                            before[k].scan.sched_scan_active,
                            before[k].wowlan.armed,
                        )
                    },
                forall|k: int| i <= k < before.len() ==> #[trigger] self.ifaces@[k] == before[k],
            decreases self.ifaces.len() - i,
        {
            let step = self.ifaces[i].shutdown();
            steps.push(step);
            i += 1;
        }
        assert(iface_names(self.ifaces@) =~= iface_names(before));
        steps
    }
}

/// Where no name repeats, names at two places differ.
proof fn lemma_no_repeats(names: Seq<Seq<char>>, i: int, k: int)
    requires
        first_repeated(names) is None,
        0 <= i < k < names.len(),
    ensures
        names[i] != names[k],
    decreases names.len(),
{
    if k == names.len() - 1 {
        assert(names.drop_last()[i] == names[i]);
    } else {
        lemma_no_repeats(names.drop_last(), i, k);
    }
}

} // verus!
