//! PMKSA cache: reconnects and roams to a cached BSS skip the full
//! authentication.

use vstd::prelude::*;

use crate::bytes;
use crate::config;
use crate::crypto::handshake4::MicAlg;
use crate::text;

verus! {

/// Lifetime (seconds) of a cached PMK.
pub const PMK_LIFETIME_SECS: u64 = 43200;

/// Percentage of the lifetime after which the driver should reauthenticate.
pub const PMK_REAUTH_THRESHOLD_PERCENT: u8 = 70;

/// A PMK security association: the key that a network and one of its APs
/// agreed on. Times are seconds of a clock that the caller reads.
#[derive(Debug, Clone)]
pub struct PmksaEntry {
    pub ssid: String,
    pub bssid: [u8; 6],
    pub pmkid: [u8; 16],
    pub pmk: [u8; 32],
    pub mic_alg: MicAlg,
    pub expires: u64,
}

/// What a security association says.
#[verifier::ext_equal]
pub struct Pmksa {
    pub ssid: Seq<char>,
    pub bssid: Seq<u8>,
    pub pmkid: Seq<u8>,
    pub pmk: Seq<u8>,
    pub mic_alg: MicAlg,
    pub expires: u64,
}

impl View for PmksaEntry {
    type V = Pmksa;

    open spec fn view(&self) -> Pmksa {
        Pmksa {
            ssid: self.ssid@,
            bssid: self.bssid@,
            pmkid: self.pmkid@,
            pmk: self.pmk@,
            mic_alg: self.mic_alg,
            expires: self.expires,
        }
    }
}

impl PmksaEntry {
    /// Another value of the same association.
    pub fn copy(&self) -> (r: Self)
        ensures
            r@ == self@,
    {
        PmksaEntry {
            ssid: config::copy_text(&self.ssid),
            bssid: self.bssid,
            pmkid: self.pmkid,
            pmk: self.pmk,
            mic_alg: self.mic_alg,
            expires: self.expires,
        }
    }

    /// Whether the association is for a network and an AP.
    fn is_for(&self, ssid: &String, bssid: &[u8; 6]) -> (r: bool)
        ensures
            r == (self.ssid@ == ssid@ && self.bssid@ == bssid@),
    {
        text::same_text(&self.ssid, ssid) && bytes::same(&self.bssid, bssid)
    }
}

/// When an association made at a time expires.
pub open spec fn expiry(now: u64) -> u64 {
    if now + PMK_LIFETIME_SECS <= u64::MAX {
        (now + PMK_LIFETIME_SECS) as u64
    } else {
        u64::MAX
    }
}

/// When an association made at a time expires.
pub fn fresh_expiry(now: u64) -> (r: u64)
    ensures
        r == expiry(now),
{
    if now <= u64::MAX - PMK_LIFETIME_SECS {
        now + PMK_LIFETIME_SECS
    } else {
        u64::MAX
    }
}

/// A reused association gets a fresh lifetime.
pub fn entry_with_fresh_lifetime(entry: PmksaEntry, now: u64) -> (r: PmksaEntry)
    ensures
        r == (PmksaEntry { expires: expiry(now), ..entry }),
{
    let mut entry = entry;
    entry.expires = fresh_expiry(now);
    entry
}

/// What a list of associations holds: for each network and AP the last one.
pub open spec fn contents(list: Seq<PmksaEntry>) -> Map<(Seq<char>, Seq<u8>), Pmksa>
    decreases list.len(),
{
    if list.len() == 0 {
        Map::empty()
    } else {
        contents(list.drop_last()).insert((list.last().ssid@, list.last().bssid@), list.last()@)
    }
}

/// The cache, by network and AP.
#[derive(Debug, Clone)]
pub struct PmksaCache {
    pub entries: Vec<PmksaEntry>,
}

impl View for PmksaCache {
    type V = Map<(Seq<char>, Seq<u8>), Pmksa>;

    open spec fn view(&self) -> Map<(Seq<char>, Seq<u8>), Pmksa> {
        contents(self.entries@)
    }
}

impl PmksaCache {
    /// An empty cache.
    pub fn new() -> (r: Self)
        ensures
            r@ == Map::<(Seq<char>, Seq<u8>), Pmksa>::empty(),
    {
        PmksaCache { entries: Vec::new() }
    }

    /// The association for a network and an AP, unless it has expired.
    pub fn lookup(&self, ssid: &String, bssid: &[u8; 6], now: u64) -> (r: Option<PmksaEntry>)
        ensures
            match r {
                Some(e) => {
                    &&& self@.dom().contains((ssid@, bssid@))
                    &&& e@ == self@[(ssid@, bssid@)]
                    &&& e@.ssid == ssid@
                    &&& e@.bssid == bssid@
                    &&& now < e.expires
                },
                None => self@.dom().contains((ssid@, bssid@)) ==> self@[(ssid@, bssid@)].expires
                    <= now,
            },
    {
        let ghost key = (ssid@, bssid@);
        let mut i: usize = self.entries.len();
        assert(self.entries@.take(i as int) =~= self.entries@);
        while i > 0
            invariant
                i <= self.entries@.len(),
                key == (ssid@, bssid@),
                contents(self.entries@.take(i as int)).dom().contains(key)
                    <==> self@.dom().contains(key),
                self@.dom().contains(key) ==> contents(self.entries@.take(i as int))[key]
                    == self@[key],
            decreases i,
        {
            i = i - 1;
            assert(self.entries@.take(i + 1).drop_last() =~= self.entries@.take(i as int));
            assert(self.entries@.take(i + 1).last() == self.entries@[i as int]);
            if self.entries[i].is_for(ssid, bssid) {
                if self.entries[i].expires > now {
                    return Some(self.entries[i].copy());
                }
                return None;
            }
        }
        assert(self.entries@.take(0) =~= Seq::<PmksaEntry>::empty());
        None
    }

    /// Drop the association for a network and an AP.
    pub fn invalidate(&mut self, ssid: &String, bssid: &[u8; 6])
        ensures
            final(self)@ == old(self)@.remove((ssid@, bssid@)),
    {
        let ghost key = (ssid@, bssid@);
        let ghost whole = self.entries@;
        let mut kept: Vec<PmksaEntry> = Vec::new();
        let mut i: usize = 0;
        assert(contents(kept@) =~= contents(whole.take(0)).remove(key));
        while i < self.entries.len()
            invariant
                whole == self.entries@,
                whole == old(self).entries@,
                i <= whole.len(),
                key == (ssid@, bssid@),
                contents(kept@) == contents(whole.take(i as int)).remove(key),
            decreases whole.len() - i,
        {
            let ghost head = whole.take(i + 1);
            let ghost before = kept@;
            assert(head.drop_last() =~= whole.take(i as int));
            assert(head.last() == whole[i as int]);
            if !self.entries[i].is_for(ssid, bssid) {
                kept.push(self.entries[i].copy());
                assert(kept@.drop_last() =~= before);
            }
            assert(contents(kept@) =~= contents(head).remove(key));
            i = i + 1;
        }
        assert(whole.take(i as int) =~= whole);
        self.entries = kept;
    }

    /// Remember an association; it replaces the one for the same network and
    /// AP.
    pub fn insert(&mut self, entry: PmksaEntry)
        ensures
            final(self)@ == old(self)@.insert((entry.ssid@, entry.bssid@), entry@),
    {
        let ghost key = (entry.ssid@, entry.bssid@);
        let ghost value = entry@;
        let ghost before = self@;
        self.invalidate(&entry.ssid, &entry.bssid);
        let ghost list = self.entries@;
        self.entries.push(entry);
        assert(self.entries@.drop_last() =~= list);
        assert(self@ =~= before.insert(key, value));
    }
}

/// An association is found again until it expires, and after it is
/// invalidated it is not; associations for other networks and APs are not
/// affected by either.
pub proof fn law_cache_by_key(
    cache: Map<(Seq<char>, Seq<u8>), Pmksa>,
    entry: Pmksa,
    other: (Seq<char>, Seq<u8>),
)
    requires
        other != (entry.ssid, entry.bssid),
    ensures
        ({
            let key = (entry.ssid, entry.bssid);
            let with = cache.insert(key, entry);
            let without = cache.remove(key);
            &&& with[key] == entry
            &&& !without.dom().contains(key)
            &&& with.dom().contains(other) == cache.dom().contains(other)
            &&& without.dom().contains(other) == cache.dom().contains(other)
            &&& cache.dom().contains(other) ==> with[other] == cache[other] && without[other]
                == cache[other]
        }),
{
}

} // verus!
