//! Time-bounded memoization of read results.
//!
//! The cache knows nothing of the tables: a caller that writes invalidates
//! the keys it made stale, or clears the cache. Time is read from a monotonic
//! clock as nanoseconds since the cache was made; the functions whose names
//! end in `_at` take that reading as an argument and are exact.

use vstd::prelude::*;
use crate::clock::{as_nanos, duration_nanos, nanos_since, now, seconds_to_nanos};
use crate::text::str_eq;

verus! {

/// One cached result.
struct CacheEntry {
    key: String,
    data: String,
    inserted_at: u128,
    ttl: u128,
}

/// The plain content of a cached result: its key, its payload, when it was
/// stored and how long it lives, both in nanoseconds.
pub struct CachedModel {
    pub key: Seq<char>,
    pub data: Seq<char>,
    pub inserted_at: nat,
    pub ttl: nat,
}

/// Time between storing and `now`; zero if the clock reads earlier.
pub open spec fn elapsed(inserted_at: nat, now: nat) -> nat {
    if now >= inserted_at {
        (now - inserted_at) as nat
    } else {
        0
    }
}

/// An entry is expired once the time since it was stored reaches its
/// time-to-live.
pub open spec fn is_expired(entry: CachedModel, now: nat) -> bool {
    elapsed(entry.inserted_at, now) >= entry.ttl
}

/// The entry that is stored for a key and payload at clock reading `now`.
pub open spec fn stored(key: Seq<char>, data: Seq<char>, ttl: nat, now: nat) -> CachedModel {
    CachedModel { key, data, inserted_at: now, ttl }
}

/// The time-to-live in force: the caller's, or the default.
pub open spec fn ttl_or(ttl: Option<std::time::Duration>, default: nat) -> nat {
    match ttl {
        Some(d) => duration_nanos(d),
        None => default,
    }
}

/// No key occurs twice.
pub open spec fn keys_distinct(entries: Seq<CachedModel>) -> bool {
    forall|i: int, j: int|
        0 <= i < j < entries.len() ==> (#[trigger] entries[i]).key != (#[trigger] entries[j]).key
}

/// Whether an entry with this key is held.
pub open spec fn has_key(entries: Seq<CachedModel>, key: Seq<char>) -> bool {
    exists|i: int| 0 <= i < entries.len() && (#[trigger] entries[i]).key == key
}

/// The position of the entry with this key, if one is held.
pub open spec fn position(entries: Seq<CachedModel>, key: Seq<char>) -> int {
    choose|i: int| 0 <= i < entries.len() && (#[trigger] entries[i]).key == key
}

/// The entries after storing `item`: it replaces the entry with its key, or
/// is added.
pub open spec fn put(entries: Seq<CachedModel>, item: CachedModel) -> Seq<CachedModel> {
    if has_key(entries, item.key) {
        entries.update(position(entries, item.key), item)
    } else {
        entries.push(item)
    }
}

/// The entries without the one with this key.
pub open spec fn without(entries: Seq<CachedModel>, key: Seq<char>) -> Seq<CachedModel> {
    if has_key(entries, key) {
        entries.remove(position(entries, key))
    } else {
        entries
    }
}

/// The number of expired entries.
pub open spec fn expired_count(entries: Seq<CachedModel>, now: nat) -> nat
    decreases entries.len(),
{
    if entries.len() == 0 {
        0
    } else if is_expired(entries.last(), now) {
        expired_count(entries.drop_last(), now) + 1
    } else {
        expired_count(entries.drop_last(), now)
    }
}

/// What a lookup returns: the payload of the live entry with this key.
pub open spec fn lookup(entries: Seq<CachedModel>, key: Seq<char>, now: nat) -> Option<Seq<char>> {
    if has_key(entries, key) && !is_expired(entries[position(entries, key)], now) {
        Some(entries[position(entries, key)].data)
    } else {
        None
    }
}

/// The payload that a lookup returned, as plain text.
pub open spec fn hit(found: Option<String>) -> Option<Seq<char>> {
    match found {
        Some(data) => Some(data@),
        None => None,
    }
}

/// The entries after a lookup: an expired entry with this key is evicted,
/// everything else stays.
pub open spec fn after_lookup(entries: Seq<CachedModel>, key: Seq<char>, now: nat) -> Seq<
    CachedModel,
> {
    if has_key(entries, key) && is_expired(entries[position(entries, key)], now) {
        entries.remove(position(entries, key))
    } else {
        entries
    }
}

/// In a sequence with distinct keys, the position of a key is the one place
/// where it is held.
pub proof fn lemma_position_is_unique(entries: Seq<CachedModel>, i: int)
    requires
        keys_distinct(entries),
        0 <= i < entries.len(),
    ensures
        has_key(entries, entries[i].key),
        position(entries, entries[i].key) == i,
{
    let key = entries[i].key;
    assert(has_key(entries, key));
    let j = position(entries, key);
    if j < i {
        assert(entries[j].key != entries[i].key);
    } else if i < j {
        assert(entries[i].key != entries[j].key);
    }
}

/// An expired entry is never returned, whether or not it was invalidated.
pub proof fn lemma_expired_is_never_returned(entries: Seq<CachedModel>, key: Seq<char>, now: nat)
    requires
        has_key(entries, key),
        is_expired(entries[position(entries, key)], now),
    ensures
        lookup(entries, key, now) is None,
{
}

/// An entry that has expired stays expired: time does not give it back.
pub proof fn lemma_expiry_is_permanent(entry: CachedModel, now: nat, later: nat)
    requires
        is_expired(entry, now),
        later >= now,
    ensures
        is_expired(entry, later),
{
}

/// Storing keeps the keys distinct, and a stored payload is found under its
/// key until its time-to-live has elapsed, and not after.
pub proof fn lemma_stored_is_found_until_expiry(
    entries: Seq<CachedModel>,
    key: Seq<char>,
    data: Seq<char>,
    ttl: nat,
    now: nat,
    at: nat,
)
    requires
        keys_distinct(entries),
    ensures
        keys_distinct(put(entries, stored(key, data, ttl, now))),
        elapsed(now, at) < ttl ==> lookup(put(entries, stored(key, data, ttl, now)), key, at)
            == Some(data),
        elapsed(now, at) >= ttl ==> lookup(put(entries, stored(key, data, ttl, now)), key, at)
            is None,
{
    let item = stored(key, data, ttl, now);
    let after = put(entries, item);
    if has_key(entries, key) {
        let i = position(entries, key);
        assert(after[i] == item);
        assert forall|a: int, b: int| 0 <= a < b < after.len() implies (#[trigger] after[a]).key != (
        #[trigger] after[b]).key by {
            assert(entries[a].key != entries[b].key);
        }
        lemma_position_is_unique(after, i);
    } else {
        let i = entries.len() as int;
        assert(after[i] == item);
        assert forall|a: int, b: int| 0 <= a < b < after.len() implies (#[trigger] after[a]).key != (
        #[trigger] after[b]).key by {
            if b == i {
                assert(entries[a].key != key);
            } else {
                assert(entries[a].key != entries[b].key);
            }
        }
        lemma_position_is_unique(after, i);
    }
}

/// Storing under one key changes no lookup of another key.
pub proof fn lemma_stored_leaves_other_keys(
    entries: Seq<CachedModel>,
    item: CachedModel,
    other: Seq<char>,
    at: nat,
)
    requires
        keys_distinct(entries),
        other != item.key,
    ensures
        lookup(put(entries, item), other, at) == lookup(entries, other, at),
{
    let after = put(entries, item);
    if has_key(entries, item.key) {
        let i = position(entries, item.key);
        assert forall|a: int, b: int| 0 <= a < b < after.len() implies (#[trigger] after[a]).key != (
        #[trigger] after[b]).key by {
            assert(entries[a].key != entries[b].key);
        }
        if has_key(entries, other) {
            let j = position(entries, other);
            assert(after[j] == entries[j]);
            lemma_position_is_unique(after, j);
        } else {
            if has_key(after, other) {
                let j = position(after, other);
                assert(entries[j].key == other);
            }
        }
    } else {
        assert forall|a: int, b: int| 0 <= a < b < after.len() implies (#[trigger] after[a]).key != (
        #[trigger] after[b]).key by {
            if b == entries.len() {
                assert(entries[a].key != item.key);
            } else {
                assert(entries[a].key != entries[b].key);
            }
        }
        if has_key(entries, other) {
            let j = position(entries, other);
            assert(after[j] == entries[j]);
            lemma_position_is_unique(after, j);
        } else {
            if has_key(after, other) {
                let j = position(after, other);
                assert(entries[j].key == other);
            }
        }
    }
}

/// After invalidation nothing is found under the key, and every other
/// lookup is unchanged.
pub proof fn lemma_invalidated_is_gone(
    entries: Seq<CachedModel>,
    key: Seq<char>,
    other: Seq<char>,
    at: nat,
)
    requires
        keys_distinct(entries),
    ensures
        keys_distinct(without(entries, key)),
        lookup(without(entries, key), key, at) is None,
        other != key ==> lookup(without(entries, key), other, at) == lookup(entries, other, at),
{
    let after = without(entries, key);
    if has_key(entries, key) {
        let i = position(entries, key);
        assert forall|a: int| 0 <= a < after.len() implies #[trigger] after[a] == entries[if a < i {
            a
        } else {
            a + 1
        }] by {}
        assert forall|a: int, b: int| 0 <= a < b < after.len() implies (#[trigger] after[a]).key != (
        #[trigger] after[b]).key by {
            let ea = if a < i { a } else { a + 1 };
            let eb = if b < i { b } else { b + 1 };
            assert(entries[ea].key != entries[eb].key);
        }
        if has_key(after, key) {
            let j = position(after, key);
            let ej = if j < i { j } else { j + 1 };
            assert(after[j] == entries[ej]);
            if ej < i {
                assert(entries[ej].key != entries[i].key);
            } else {
                assert(entries[i].key != entries[ej].key);
            }
        }
        if other != key {
            if has_key(entries, other) {
                let j = position(entries, other);
                let aj = if j < i { j } else { j - 1 };
                assert(after[aj] == entries[j]);
                lemma_position_is_unique(after, aj);
            } else {
                if has_key(after, other) {
                    let j = position(after, other);
                    let ej = if j < i { j } else { j + 1 };
                    assert(entries[ej].key == other);
                }
            }
        }
    }
}

impl CacheEntry {
    spec fn model(&self) -> CachedModel {
        CachedModel {
            key: self.key@,
            data: self.data@,
            inserted_at: self.inserted_at as nat,
            ttl: self.ttl as nat,
        }
    }
}

spec fn models(entries: Seq<CacheEntry>) -> Seq<CachedModel> {
    Seq::new(entries.len(), |i: int| entries[i].model())
}

/// Counts of a cache at one moment.
#[derive(Debug, Clone, Copy, PartialEq, Eq)]
pub struct CacheStats {
    pub total_entries: usize,
    pub active_entries: usize,
    pub expired_entries: usize,
}

/// Cache of query results with a time-to-live per entry.
pub struct QueryCache {
    entries: Vec<CacheEntry>,
    default_ttl: u128,
    origin: std::time::Instant,
}

impl View for QueryCache {
    type V = Seq<CachedModel>;

    closed spec fn view(&self) -> Seq<CachedModel> {
        models(self.entries@)
    }
}

impl QueryCache {
    /// The invariant of every cache: no key is held twice.
    pub open spec fn wf(&self) -> bool {
        keys_distinct(self@)
    }

    /// The time-to-live of entries stored without one, in nanoseconds.
    pub closed spec fn spec_default_ttl(&self) -> nat {
        self.default_ttl as nat
    }

    /// An empty cache whose entries live `default_ttl_seconds` unless stored
    /// with a time-to-live of their own.
    pub fn new(default_ttl_seconds: u64) -> (cache: Self)
        ensures
            cache@ == Seq::<CachedModel>::empty(),
            cache.spec_default_ttl() == default_ttl_seconds * 1_000_000_000,
            cache.wf(),
    {
        let cache = QueryCache {
            entries: Vec::new(),
            default_ttl: seconds_to_nanos(default_ttl_seconds),
            origin: now(),
        };
        assert(cache@ =~= Seq::<CachedModel>::empty());
        cache
    }

    /// The position of the entry with this key.
    fn find(&self, key: &str) -> (found: Option<usize>)
        requires
            self.wf(),
        ensures
            match found {
                Some(i) => i < self@.len() && self@[i as int].key == key@ && has_key(self@, key@)
                    && position(self@, key@) == i,
                None => !has_key(self@, key@),
            },
    {
        let mut i: usize = 0;
        while i < self.entries.len()
            invariant
                i <= self.entries.len(),
                self.wf(),
                forall|k: int| 0 <= k < i ==> (#[trigger] self@[k]).key != key@,
            decreases self.entries.len() - i,
        {
            if str_eq(self.entries[i].key.as_str(), key) {
                proof {
                    assert(self@[i as int].key == key@);
                    let j = position(self@, key@);
                    assert(0 <= j < self@.len() && self@[j].key == key@);
                    if j < i {
                        assert(self@[j].key != self@[i as int].key);
                    } else if i < j {
                        assert(self@[i as int].key != self@[j].key);
                    }
                }
                return Some(i);
            }
            i += 1;
        }
        None
    }

    /// Looks `key` up at clock reading `now`.
    ///
    /// Returns the payload exactly when an entry with this key is held and
    /// has not expired. An expired entry is never returned, whether or not it
    /// was invalidated, and is evicted by the lookup; nothing else changes.
    pub fn get_at(&mut self, key: &str, now: u128) -> (found: Option<String>)
        requires
            old(self).wf(),
        ensures
            match lookup(old(self)@, key@, now as nat) {
                Some(data) => found matches Some(d) && d@ == data,
                None => found is None,
            },
            final(self)@ == after_lookup(old(self)@, key@, now as nat),
            final(self).spec_default_ttl() == old(self).spec_default_ttl(),
            final(self).wf(),
            has_key(old(self)@, key@) && is_expired(
                old(self)@[position(old(self)@, key@)],
                now as nat,
            ) ==> found is None,
    {
        match self.find(key) {
            None => None,
            Some(i) => {
                let inserted_at = self.entries[i].inserted_at;
                let ttl = self.entries[i].ttl;
                let age: u128 = if now >= inserted_at {
                    now - inserted_at
                } else {
                    0
                };
                if age < ttl {
                    Some(self.entries[i].data.clone())
                } else {
                    proof {
                            assert(models(self.entries@.remove(i as int)) =~= models(
                            self.entries@,
                        ).remove(i as int));
                    }
                    self.entries.remove(i);
                    None
                }
            },
        }
    }

    /// Looks `key` up now: the result and the eviction are those of
    /// [`QueryCache::get_at`] for the reading that the clock gave. So an
    /// entry that is held is either returned, or it has expired and is
    /// evicted; a key that is not held gives `None` and changes nothing.
    pub fn get(&mut self, key: &str) -> (found: Option<String>)
        requires
            old(self).wf(),
        ensures
            exists|now: nat|
                hit(found) == #[trigger] lookup(old(self)@, key@, now) && final(self)@
                    == after_lookup(old(self)@, key@, now),
            !has_key(old(self)@, key@) ==> found is None && final(self)@ == old(self)@,
            final(self).spec_default_ttl() == old(self).spec_default_ttl(),
            final(self).wf(),
    {
        let reading = nanos_since(&self.origin);
        let found = self.get_at(key, reading);
        assert(hit(found) == lookup(old(self)@, key@, reading as nat));
        found
    }

    /// Stores `data` under `key` at clock reading `now`, with the given
    /// time-to-live in nanoseconds. An entry with the same key is replaced.
    pub fn set_at(&mut self, key: String, data: String, ttl: u128, now: u128)
        requires
            old(self).wf(),
        ensures
            final(self)@ == put(old(self)@, stored(key@, data@, ttl as nat, now as nat)),
            final(self).spec_default_ttl() == old(self).spec_default_ttl(),
            final(self).wf(),
    {
        let ghost item = CachedModel {
            key: key@,
            data: data@,
            inserted_at: now as nat,
            ttl: ttl as nat,
        };
        let found = self.find(key.as_str());
        let entry = CacheEntry { key, data, inserted_at: now, ttl };
        match found {
            Some(i) => {
                proof {
                    assert(models(self.entries@.update(i as int, entry)) =~= models(
                        self.entries@,
                    ).update(i as int, item));
                }
                self.entries.set(i, entry);
            },
            None => {
                proof {
                    assert(models(self.entries@.push(entry)) =~= models(self.entries@).push(item));
                }
                self.entries.push(entry);
            },
        }
    }

    /// Stores `data` under `key` now. The entry lives for `ttl`, or for the
    /// cache's default when none is given. An entry with the same key is
    /// replaced; no other entry changes.
    pub fn set(&mut self, key: String, data: String, ttl: Option<std::time::Duration>)
        requires
            old(self).wf(),
        ensures
            exists|now: nat|
                final(self)@ == put(
                    old(self)@,
                    #[trigger] stored(
                        key@,
                        data@,
                        ttl_or(ttl, old(self).spec_default_ttl()),
                        now,
                    ),
                ),
            final(self).spec_default_ttl() == old(self).spec_default_ttl(),
            final(self).wf(),
    {
        let reading = nanos_since(&self.origin);
        let lifetime = match ttl {
            Some(d) => as_nanos(&d),
            None => self.default_ttl,
        };
        self.set_at(key, data, lifetime, reading);
        assert(self@ == put(
            old(self)@,
            stored(key@, data@, ttl_or(ttl, old(self).spec_default_ttl()), reading as nat),
        ));
    }

    /// Drops the entry with this key, if one is held.
    pub fn invalidate(&mut self, key: &str)
        requires
            old(self).wf(),
        ensures
            final(self)@ == without(old(self)@, key@),
            final(self).spec_default_ttl() == old(self).spec_default_ttl(),
            final(self).wf(),
    {
        match self.find(key) {
            None => {},
            Some(i) => {
                proof {
                    assert(models(self.entries@.remove(i as int)) =~= models(
                        self.entries@,
                    ).remove(i as int));
                }
                self.entries.remove(i);
            },
        }
    }

    /// Drops every entry.
    pub fn clear(&mut self)
        ensures
            final(self)@ == Seq::<CachedModel>::empty(),
            final(self).spec_default_ttl() == old(self).spec_default_ttl(),
            final(self).wf(),
    {
        self.entries.clear();
        assert(self@ =~= Seq::<CachedModel>::empty());
    }

    /// Counts the entries at clock reading `now`: all of them, those that
    /// have expired but were not yet evicted, and the rest.
    pub fn stats_at(&self, now: u128) -> (stats: CacheStats)
        ensures
            stats.total_entries == self@.len(),
            stats.expired_entries == expired_count(self@, now as nat),
            stats.active_entries == stats.total_entries - stats.expired_entries,
    {
        let mut expired: usize = 0;
        let mut i: usize = 0;
        while i < self.entries.len()
            invariant
                i <= self.entries.len(),
                expired <= i,
                expired == expired_count(self@.subrange(0, i as int), now as nat),
            decreases self.entries.len() - i,
        {
            let inserted_at = self.entries[i].inserted_at;
            let age: u128 = if now >= inserted_at {
                now - inserted_at
            } else {
                0
            };
            proof {
                let next = self@.subrange(0, i + 1);
                assert(next.drop_last() =~= self@.subrange(0, i as int));
                assert(next.last() == self@[i as int]);
            }
            if age >= self.entries[i].ttl {
                expired += 1;
            }
            i += 1;
        }
        assert(self@.subrange(0, i as int) =~= self@);
        CacheStats {
            total_entries: self.entries.len(),
            active_entries: self.entries.len() - expired,
            expired_entries: expired,
        }
    }

    /// Counts the entries now: the counts are those of
    /// [`QueryCache::stats_at`] for the reading that the clock gave. They add
    /// up and cover every entry.
    pub fn stats(&self) -> (stats: CacheStats)
        ensures
            stats.total_entries == self@.len(),
            exists|now: nat| stats.expired_entries == #[trigger] expired_count(self@, now),
            stats.total_entries == stats.active_entries + stats.expired_entries,
    {
        let reading = nanos_since(&self.origin);
        let stats = self.stats_at(reading);
        assert(stats.expired_entries == expired_count(self@, reading as nat));
        stats
    }
}

} // verus!
