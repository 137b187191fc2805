//! TTL-bounded memoisation of tool status and help text.
//!
//! An entry is stamped when written and expires as a pure function of the
//! wall-clock time at read time; nothing evicts in the background. Expired
//! entries are filtered lazily on read and pruned eagerly when a persisted
//! cache is adopted. Reading and writing never perform I/O: persistence is
//! the front end's separate, explicit step.

use vstd::prelude::*;
use crate::clock::now_unix_seconds;
use crate::strmap::StringMap;
use crate::tool::ToolStatus;

verus! {

/// How long a cached tool status stays fresh: one day.
pub const STATUS_TTL_SECONDS: u64 = 86400;

/// How long cached help text stays fresh: seven days (help rarely changes,
/// and fetching it costs a subprocess).
pub const HELP_TTL_SECONDS: u64 = 604800;

/// A cached value stamped with its creation time and time-to-live.
#[derive(Debug, Clone, PartialEq, Eq)]
pub struct CacheEntry<T> {
    pub data: T,
    pub timestamp: u64,
    pub ttl_seconds: u64,
}

impl<T> CacheEntry<T> {
    /// An entry is expired once the clock has moved strictly past its stamp
    /// plus its time-to-live.
    pub open spec fn spec_expired_at(self, now: u64) -> bool {
        now > self.timestamp + self.ttl_seconds
    }

    /// Build an entry stamped with the given time.
    pub fn new_at(data: T, ttl_seconds: u64, now: u64) -> (r: Self)
        ensures
            r.data == data,
            r.timestamp == now,
            r.ttl_seconds == ttl_seconds,
    {
        CacheEntry { data, timestamp: now, ttl_seconds }
    }

    /// Build an entry stamped with the current time.
    pub fn new(data: T, ttl_seconds: u64) -> (r: Self)
        ensures
            r.data == data,
            r.ttl_seconds == ttl_seconds,
    {
        let now = now_unix_seconds();
        Self::new_at(data, ttl_seconds, now)
    }

    /// Decide expiry against the given time.
    pub fn is_expired_at(&self, now: u64) -> (r: bool)
        ensures
            r == self.spec_expired_at(now),
    {
        (now as u128) > (self.timestamp as u128) + (self.ttl_seconds as u128)
    }

    /// Decide expiry against the current time; the exact rule is
    /// `is_expired_at`, applied to the clock's reading.
    pub fn is_expired(&self) -> bool {
        let now = now_unix_seconds();
        self.is_expired_at(now)
    }
}

/// Drop every entry of `m` that is expired at time `now`; fresh entries and
/// their values are untouched.
pub fn prune_expired<T>(m: &mut StringMap<CacheEntry<T>>, now: u64)
    ensures
        forall|k: Seq<char>| final(m)@.contains_key(k)
            == (old(m)@.contains_key(k) && !old(m)@[k].spec_expired_at(now)),
        forall|k: Seq<char>| #[trigger] final(m)@.contains_key(k)
            ==> final(m)@[k] == old(m)@[k],
{
    let mut expired: Vec<String> = Vec::new();
    {
        let ents = m.entries();
        let n = ents.len();
        let mut i: usize = 0;
        while i < n
            invariant
                i <= n,
                n == m.entries_seq().len(),
                ents@ == m.entries_seq(),
                old(m)@ == m@,
                forall|a: int| 0 <= a < m.entries_seq().len()
                    ==> m@.contains_key((#[trigger] m.entries_seq()[a]).0@)
                        && m@[m.entries_seq()[a].0@] == m.entries_seq()[a].1,
                forall|j: int| 0 <= j < expired@.len()
                    ==> m@.contains_key((#[trigger] expired@[j])@)
                        && m@[expired@[j]@].spec_expired_at(now),
                forall|a: int| 0 <= a < i
                    ==> ((#[trigger] m.entries_seq()[a]).1.spec_expired_at(now)
                        ==> exists|j: int| 0 <= j < expired@.len()
                            && (#[trigger] expired@[j])@ == m.entries_seq()[a].0@),
            decreases n - i,
        {
            if ents[i].1.is_expired_at(now) {
                let ghost pre = expired@;
                expired.push(ents[i].0.clone());
                proof {
                    assert(expired@[pre.len() as int]@ == m.entries_seq()[i as int].0@);
                    assert forall|a: int| 0 <= a < i + 1
                        && (#[trigger] m.entries_seq()[a]).1.spec_expired_at(now)
                        implies exists|j: int| 0 <= j < expired@.len()
                            && (#[trigger] expired@[j])@ == m.entries_seq()[a].0@ by {
                        if a < i {
                            let j = choose|j: int| 0 <= j < pre.len()
                                && (#[trigger] pre[j])@ == m.entries_seq()[a].0@;
                            assert(expired@[j] == pre[j]);
                        } else {
                            assert(expired@[pre.len() as int]@ == m.entries_seq()[a].0@);
                        }
                    }
                }
            }
            i += 1;
        }
    }
    proof {
        // every key of the map sits at some entry index, so the collected
        // list is exactly the set of expired keys
        assert forall|k: Seq<char>| old(m)@.contains_key(k)
            && old(m)@[k].spec_expired_at(now)
            implies exists|j: int| 0 <= j < expired@.len()
                && (#[trigger] expired@[j])@ == k by {
            let a = choose|a: int| 0 <= a < m.entries_seq().len()
                && (#[trigger] m.entries_seq()[a]).0@ == k;
            assert(m.entries_seq()[a].1.spec_expired_at(now));
        }
    }
    let ghost listed = expired@;
    let en = expired.len();
    let mut t: usize = 0;
    while t < en
        invariant
            t <= en,
            en == listed.len(),
            expired@ == listed,
            forall|j: int| 0 <= j < en
                ==> old(m)@.contains_key((#[trigger] listed[j])@)
                    && old(m)@[listed[j]@].spec_expired_at(now),
            forall|k: Seq<char>| old(m)@.contains_key(k) && old(m)@[k].spec_expired_at(now)
                ==> exists|j: int| 0 <= j < en && (#[trigger] listed[j])@ == k,
            forall|k: Seq<char>| #[trigger] m@.contains_key(k)
                == (old(m)@.contains_key(k)
                    && !(exists|j: int| 0 <= j < t && (#[trigger] listed[j])@ == k)),
            forall|k: Seq<char>| #[trigger] m@.contains_key(k) ==> m@[k] == old(m)@[k],
        decreases en - t,
    {
        let ghost before = m@;
        m.remove(expired[t].as_str());
        proof {
            assert forall|k: Seq<char>| #[trigger] m@.contains_key(k)
                == (old(m)@.contains_key(k)
                    && !(exists|j: int| 0 <= j < t + 1 && (#[trigger] listed[j])@ == k)) by {
                if k == listed[t as int]@ {
                    assert(!m@.contains_key(k));
                    assert(0 <= t < t + 1 && listed[t as int]@ == k);
                } else {
                    assert(m@.contains_key(k) == before.contains_key(k));
                    assert((exists|j: int| 0 <= j < t + 1 && (#[trigger] listed[j])@ == k)
                        == (exists|j: int| 0 <= j < t && (#[trigger] listed[j])@ == k));
                }
            }
        }
        t += 1;
    }
    proof {
        assert forall|k: Seq<char>| #[trigger] final(m)@.contains_key(k)
            == (old(m)@.contains_key(k) && !old(m)@[k].spec_expired_at(now)) by {
            if old(m)@.contains_key(k) {
                if old(m)@[k].spec_expired_at(now) {
                    assert(exists|j: int| 0 <= j < en && (#[trigger] listed[j])@ == k);
                } else {
                    assert(!(exists|j: int| 0 <= j < en && (#[trigger] listed[j])@ == k));
                }
            }
        }
    }
}

/// The two memoisation maps, keyed by tool identifier.
pub struct ToolCache {
    pub status_cache: StringMap<CacheEntry<ToolStatus>>,
    pub help_cache: StringMap<CacheEntry<String>>,
}

impl Default for ToolCache {
    fn default() -> (r: Self)
        ensures
            r.status_cache@ == Map::<Seq<char>, CacheEntry<ToolStatus>>::empty(),
            r.help_cache@ == Map::<Seq<char>, CacheEntry<String>>::empty(),
    {
        ToolCache { status_cache: StringMap::new(), help_cache: StringMap::new() }
    }
}

/// Owner of the persisted cache document's in-memory image. Front ends load
/// and save the document; between those moments this map is the truth.
pub struct CacheManager {
    cache: ToolCache,
}

impl CacheManager {
    /// The status entries, as a map from tool identifier to entry.
    pub closed spec fn status_map(self) -> Map<Seq<char>, CacheEntry<ToolStatus>> {
        self.cache.status_cache@
    }

    /// The help entries, as a map from tool identifier to entry.
    pub closed spec fn help_map(self) -> Map<Seq<char>, CacheEntry<String>> {
        self.cache.help_cache@
    }

    /// The number of status entries.
    pub closed spec fn status_count(self) -> nat {
        self.cache.status_cache.spec_len()
    }

    /// The number of help entries.
    pub closed spec fn help_count(self) -> nat {
        self.cache.help_cache.spec_len()
    }

    /// A manager with an empty cache.
    pub fn new() -> (r: Self)
        ensures
            r.status_map() == Map::<Seq<char>, CacheEntry<ToolStatus>>::empty(),
            r.help_map() == Map::<Seq<char>, CacheEntry<String>>::empty(),
    {
        CacheManager { cache: ToolCache::default() }
    }

    /// Adopt a cache image read from disk, pruning entries that are already
    /// expired at time `now` so the persisted file cannot grow without bound.
    pub fn adopt_at(&mut self, cache: ToolCache, now: u64)
        ensures
            forall|k: Seq<char>| final(self).status_map().contains_key(k)
                == (cache.status_cache@.contains_key(k)
                    && !cache.status_cache@[k].spec_expired_at(now)),
            forall|k: Seq<char>| #[trigger] final(self).status_map().contains_key(k)
                ==> final(self).status_map()[k] == cache.status_cache@[k],
            forall|k: Seq<char>| final(self).help_map().contains_key(k)
                == (cache.help_cache@.contains_key(k)
                    && !cache.help_cache@[k].spec_expired_at(now)),
            forall|k: Seq<char>| #[trigger] final(self).help_map().contains_key(k)
                ==> final(self).help_map()[k] == cache.help_cache@[k],
    {
        let mut cache = cache;
        prune_expired(&mut cache.status_cache, now);
        prune_expired(&mut cache.help_cache, now);
        self.cache = cache;
    }

    /// Borrow the cache image, for persistence.
    pub fn image(&self) -> (r: &ToolCache)
        ensures
            r.status_cache@ == self.status_map(),
            r.help_cache@ == self.help_map(),
    {
        &self.cache
    }

    /// Read a cached status; an entry expired at `now` reads as absent and
    /// is not self-healed.
    pub fn get_tool_status_at(&self, tool_id: &str, now: u64) -> (r: Option<ToolStatus>)
        ensures
            match r {
                Some(s) => self.status_map().contains_key(tool_id@)
                    && !self.status_map()[tool_id@].spec_expired_at(now)
                    && s == self.status_map()[tool_id@].data,
                None => !self.status_map().contains_key(tool_id@)
                    || self.status_map()[tool_id@].spec_expired_at(now),
            },
    {
        match self.cache.status_cache.get(tool_id) {
            Some(entry) => {
                if entry.is_expired_at(now) {
                    None
                } else {
                    Some(entry.data.clone())
                }
            },
            None => None,
        }
    }

    /// Read a cached status against the current clock.
    pub fn get_tool_status(&self, tool_id: &str) -> (r: Option<ToolStatus>)
        ensures
            match r {
                Some(s) => self.status_map().contains_key(tool_id@)
                    && s == self.status_map()[tool_id@].data,
                None => true,
            },
    {
        let now = now_unix_seconds();
        self.get_tool_status_at(tool_id, now)
    }

    /// Write a status entry stamped `now`, with the one-day status TTL.
    pub fn set_tool_status_at(&mut self, tool_id: &str, status: ToolStatus, now: u64)
        ensures
            final(self).status_map() == old(self).status_map().insert(
                tool_id@,
                CacheEntry { data: status, timestamp: now, ttl_seconds: STATUS_TTL_SECONDS },
            ),
            final(self).help_map() == old(self).help_map(),
    {
        let entry = CacheEntry::new_at(status, STATUS_TTL_SECONDS, now);
        self.cache.status_cache.insert(tool_id.to_owned(), entry);
    }

    /// Write a status entry stamped with the current time.
    pub fn set_tool_status(&mut self, tool_id: &str, status: ToolStatus)
        ensures
            final(self).status_map().contains_key(tool_id@),
            final(self).status_map()[tool_id@].data == status,
            final(self).status_map()[tool_id@].ttl_seconds == STATUS_TTL_SECONDS,
            forall|k: Seq<char>| k != tool_id@
                ==> #[trigger] final(self).status_map().contains_key(k)
                        == old(self).status_map().contains_key(k)
                    && (final(self).status_map().contains_key(k)
                        ==> final(self).status_map()[k] == old(self).status_map()[k]),
            final(self).help_map() == old(self).help_map(),
    {
        let now = now_unix_seconds();
        self.set_tool_status_at(tool_id, status, now);
    }

    /// Read cached help text; an entry expired at `now` reads as absent.
    pub fn get_tool_help_at(&self, tool_id: &str, now: u64) -> (r: Option<String>)
        ensures
            match r {
                Some(s) => self.help_map().contains_key(tool_id@)
                    && !self.help_map()[tool_id@].spec_expired_at(now)
                    && s == self.help_map()[tool_id@].data,
                None => !self.help_map().contains_key(tool_id@)
                    || self.help_map()[tool_id@].spec_expired_at(now),
            },
    {
        match self.cache.help_cache.get(tool_id) {
            Some(entry) => {
                if entry.is_expired_at(now) {
                    None
                } else {
                    Some(entry.data.clone())
                }
            },
            None => None,
        }
    }

    /// Read cached help text against the current clock.
    pub fn get_tool_help(&self, tool_id: &str) -> (r: Option<String>)
        ensures
            match r {
                Some(s) => self.help_map().contains_key(tool_id@)
                    && s == self.help_map()[tool_id@].data,
                None => true,
            },
    {
        let now = now_unix_seconds();
        self.get_tool_help_at(tool_id, now)
    }

    /// Write a help entry stamped `now`, with the seven-day help TTL.
    pub fn set_tool_help_at(&mut self, tool_id: &str, help: String, now: u64)
        ensures
            final(self).help_map() == old(self).help_map().insert(
                tool_id@,
                CacheEntry { data: help, timestamp: now, ttl_seconds: HELP_TTL_SECONDS },
            ),
            final(self).status_map() == old(self).status_map(),
    {
        let entry = CacheEntry::new_at(help, HELP_TTL_SECONDS, now);
        self.cache.help_cache.insert(tool_id.to_owned(), entry);
    }

    /// Write a help entry stamped with the current time.
    pub fn set_tool_help(&mut self, tool_id: &str, help: String)
        ensures
            final(self).help_map().contains_key(tool_id@),
            final(self).help_map()[tool_id@].data == help,
            final(self).help_map()[tool_id@].ttl_seconds == HELP_TTL_SECONDS,
            forall|k: Seq<char>| k != tool_id@
                ==> #[trigger] final(self).help_map().contains_key(k)
                        == old(self).help_map().contains_key(k)
                    && (final(self).help_map().contains_key(k)
                        ==> final(self).help_map()[k] == old(self).help_map()[k]),
            final(self).status_map() == old(self).status_map(),
    {
        let now = now_unix_seconds();
        self.set_tool_help_at(tool_id, help, now);
    }

    /// Drop both entries of a tool, used when it is deleted or reconfigured.
    pub fn invalidate_tool(&mut self, tool_id: &str)
        ensures
            final(self).status_map() == old(self).status_map().remove(tool_id@),
            final(self).help_map() == old(self).help_map().remove(tool_id@),
    {
        self.cache.status_cache.remove(tool_id);
        self.cache.help_cache.remove(tool_id);
    }

    /// Drop every entry.
    pub fn clear_all(&mut self)
        ensures
            final(self).status_map() == Map::<Seq<char>, CacheEntry<ToolStatus>>::empty(),
            final(self).help_map() == Map::<Seq<char>, CacheEntry<String>>::empty(),
    {
        self.cache = ToolCache::default();
    }

    /// How many status and help entries are held.
    pub fn get_cache_stats(&self) -> (r: (usize, usize))
        ensures
            r.0 == self.status_count(),
            r.1 == self.help_count(),
    {
        (self.cache.status_cache.len(), self.cache.help_cache.len())
    }
}

} // verus!
