//! Caches of update checks, bounded in size and in time.
//!
//! A cache keeps, for the identifier of a title, a verdict and a time. It
//! holds a fixed number of entries and gives up the least recently used one
//! when a new key needs room. An entry that is too old is passed over when
//! it is read; it is not removed until it is overwritten, invalidated or
//! pushed out.
//!
//! Times are milliseconds since the start of 1970. Each operation that needs
//! the time comes in two forms: one that takes the time as an argument and
//! one that reads the system's clock.

use crate::cache::recency::{
    inserted, lemma_drop_last, lemma_inserted, lemma_removed, lemma_touched, lemma_without, lookup,
    touched, well_formed, without, Entries, Slot,
};
use crate::clock::utc_now_millis;
use crate::lru_store::{
    lru_capacity, lru_clear, lru_entries, lru_get, lru_new, lru_pop, lru_put, Store, MAX_CAPACITY,
};
use vstd::prelude::*;

pub mod recency;

verus! {

/// The number of entries that a cache of update checks holds.
pub const CACHE_SIZE: usize = 1000;

/// The minutes for which an update check stays valid.
pub const CACHE_TTL_MINUTES: i64 = 30;

/// The milliseconds of a minute.
pub const MILLIS_PER_MINUTE: i64 = 60_000;

/// The time at which an entry made at `now` with `ttl_minutes` to live
/// expires: `now` plus the minutes, kept within the range of `i64`.
pub open spec fn expiry(now: i64, ttl_minutes: i64) -> i64 {
    let at = now + ttl_minutes * MILLIS_PER_MINUTE;
    if at > i64::MAX {
        i64::MAX
    } else if at < i64::MIN {
        i64::MIN
    } else {
        at as i64
    }
}

/// The time at which an entry made at `now` with `ttl_minutes` to live
/// expires.
pub fn expiry_at(now: i64, ttl_minutes: i64) -> (at: i64)
    ensures
        at == expiry(now, ttl_minutes),
{
    let wide: i128 = (now as i128) + (ttl_minutes as i128) * 60_000;
    if wide > i64::MAX as i128 {
        i64::MAX
    } else if wide < i64::MIN as i128 {
        i64::MIN
    } else {
        wide as i64
    }
}

/// What is read at `now` where `found` is stored with its time of expiry:
/// the stored slot while the time of expiry lies ahead, nothing from then on.
pub open spec fn unexpired(found: Option<Slot>, now: i64) -> Option<Slot> {
    match found {
        Some(slot) => if slot.1 > now {
            Some(slot)
        } else {
            None
        },
        None => None,
    }
}

/// What is read at `now` where `found` is stored with the time of its
/// check: the stored slot while the check is less than `CACHE_TTL_MINUTES`
/// old, nothing from then on.
pub open spec fn recent(found: Option<Slot>, now: i64) -> Option<Slot> {
    match found {
        Some(slot) => if now - slot.1 < CACHE_TTL_MINUTES * MILLIS_PER_MINUTE {
            Some(slot)
        } else {
            None
        },
        None => None,
    }
}

/// Whether `found` is what a cache of expiring values with the given entries
/// answers at `now` when it is asked for `key`.
pub open spec fn answers_unexpired(
    entries: Entries,
    key: u32,
    now: i64,
    found: Option<TimedCacheEntry<bool>>,
) -> bool {
    match unexpired(lookup(entries, key), now) {
        Some(slot) => found == Some(TimedCacheEntry { value: slot.0, timestamp: slot.1 }),
        None => found is None,
    }
}

/// Whether `found` is what a cache of update checks with the given entries
/// answers at `now` when it is asked for `app_id`.
pub open spec fn answers_recent(
    entries: Entries,
    app_id: u32,
    now: i64,
    found: Option<CacheEntry>,
) -> bool {
    match recent(lookup(entries, app_id), now) {
        Some(slot) => found == Some(CacheEntry { needs_update: slot.0, checked_at: slot.1 }),
        None => found is None,
    }
}

/// A value stored at `now` with a positive number of minutes to live is
/// what the cache answers for its key at that same time, whatever the cache
/// held before.
pub proof fn stored_value_is_read_back(
    entries: Entries,
    cap: nat,
    key: u32,
    value: bool,
    now: i64,
    ttl_minutes: i64,
)
    requires
        well_formed(entries, cap),
        ttl_minutes > 0,
        now < i64::MAX,
    ensures
        answers_unexpired(
            inserted(entries, cap, key, (value, expiry(now, ttl_minutes))),
            key,
            now,
            Some(TimedCacheEntry { value, timestamp: expiry(now, ttl_minutes) }),
        ),
{
    lemma_inserted(entries, cap, key, (value, expiry(now, ttl_minutes)), key);
}

/// Once the minutes to live have passed, the cache answers nothing for the
/// key, although the entry is still there.
pub proof fn expired_value_is_not_read(
    entries: Entries,
    cap: nat,
    key: u32,
    value: bool,
    now: i64,
    ttl_minutes: i64,
    later: i64,
)
    requires
        well_formed(entries, cap),
        later >= now + ttl_minutes * MILLIS_PER_MINUTE,
    ensures
        answers_unexpired(
            inserted(entries, cap, key, (value, expiry(now, ttl_minutes))),
            key,
            later,
            None,
        ),
        lookup(inserted(entries, cap, key, (value, expiry(now, ttl_minutes))), key) is Some,
{
    lemma_inserted(entries, cap, key, (value, expiry(now, ttl_minutes)), key);
}

/// After a key is invalidated the cache answers nothing for it, at any
/// time and whatever time to live its entry had.
pub proof fn invalidated_key_is_not_read(entries: Entries, key: u32, now: i64)
    ensures
        answers_unexpired(without(entries, key), key, now, None),
        answers_recent(without(entries, key), key, now, None),
{
    lemma_without(entries, key, key);
}

/// Reading and writing other keys does not change what a key has, as long
/// as the cache has room: only a write of a new key into a full cache takes
/// an entry away.
pub proof fn other_keys_keep_their_entries(
    entries: Entries,
    cap: nat,
    key: u32,
    slot: Slot,
    other: u32,
)
    requires
        well_formed(entries, cap),
        other != key,
        entries.len() < cap || lookup(entries, key) is Some,
    ensures
        lookup(touched(entries, key), other) == lookup(entries, other),
        lookup(inserted(entries, cap, key, slot), other) == lookup(entries, other),
        lookup(without(entries, key), other) == lookup(entries, other),
{
    lemma_touched(entries, cap, key, other);
    lemma_inserted(entries, cap, key, slot, other);
    lemma_without(entries, key, other);
}

/// A new key written into a full cache takes the place of exactly one
/// entry, the least recently used: afterwards the new key has what was
/// written, the key that stood last has nothing, and every other key has
/// what it had.
pub proof fn full_cache_gives_up_least_recent(
    entries: Entries,
    cap: nat,
    key: u32,
    slot: Slot,
    other: u32,
)
    requires
        well_formed(entries, cap),
        entries.len() == cap,
        lookup(entries, key) is None,
    ensures
        lookup(entries, entries.last().0) is Some,
        lookup(inserted(entries, cap, key, slot), other) == if other == key {
            Some(slot)
        } else if other == entries.last().0 {
            None
        } else {
            lookup(entries, other)
        },
{
    lemma_inserted(entries, cap, key, slot, other);
    lemma_drop_last(entries, other);
}

/// A key that was just read is never the one given up by the next write: in
/// a cache for two entries or more, its entry is there after any other key
/// is written.
pub proof fn read_entry_survives_next_write(
    entries: Entries,
    cap: nat,
    read: u32,
    key: u32,
    slot: Slot,
)
    requires
        well_formed(entries, cap),
        cap >= 2,
        lookup(entries, read) is Some,
        key != read,
    ensures
        lookup(inserted(touched(entries, read), cap, key, slot), read) == lookup(entries, read),
{
    let after_read = touched(entries, read);
    lemma_touched(entries, cap, read, read);
    lemma_inserted(after_read, cap, key, slot, read);
    if after_read.len() == cap {
        lemma_drop_last(after_read, read);
        assert(after_read[0].0 == read);
        assert(after_read.drop_first().len() > 0);
        lemma_drop_last(after_read.drop_first(), read);
        assert(after_read.drop_first().last() == after_read.last());
    }
}

/// A value with the time at which it expires.
#[derive(Debug, Clone)]
pub struct TimedCacheEntry<T: Clone> {
    pub value: T,
    pub timestamp: i64,
}

impl<T: Clone> TimedCacheEntry<T> {
    /// An entry that expires `ttl_minutes` after `now`.
    pub fn new_at(value: T, now: i64, ttl_minutes: i64) -> (entry: Self)
        ensures
            entry.value == value,
            entry.timestamp == expiry(now, ttl_minutes),
    {
        TimedCacheEntry { value, timestamp: expiry_at(now, ttl_minutes) }
    }

    /// An entry that expires `ttl_minutes` after the time that the clock
    /// shows.
    pub fn new(value: T, ttl_minutes: i64) -> (entry: Self)
        ensures
            entry.value == value,
            exists|now: i64| entry.timestamp == expiry(now, ttl_minutes),
    {
        let now = utc_now_millis();
        Self::new_at(value, now, ttl_minutes)
    }

    /// Whether the entry has not expired at `now`.
    pub open spec fn fresh_at(self, now: i64) -> bool {
        self.timestamp > now
    }

    /// Whether the entry has not expired at `now`.
    pub fn is_fresh_at(&self, now: i64) -> (fresh: bool)
        ensures
            fresh == self.fresh_at(now),
    {
        self.timestamp > now
    }
}

/// The verdict of an update check with the time of the check.
#[derive(Debug, Clone, Copy, PartialEq, Eq, Structural)]
pub struct CacheEntry {
    pub needs_update: bool,
    pub checked_at: i64,
}

impl CacheEntry {
    /// Whether the check is less than `CACHE_TTL_MINUTES` old at `now`.
    pub open spec fn valid_at(self, now: i64) -> bool {
        now - self.checked_at < CACHE_TTL_MINUTES * MILLIS_PER_MINUTE
    }

    /// Whether the check is less than `CACHE_TTL_MINUTES` old at `now`.
    pub fn is_valid_at(&self, now: i64) -> (valid: bool)
        ensures
            valid == self.valid_at(now),
    {
        (now as i128) - (self.checked_at as i128) < 1_800_000
    }

    /// Whether the check is less than `CACHE_TTL_MINUTES` old by the clock.
    pub fn is_valid(&self) -> (valid: bool)
        ensures
            exists|now: i64| valid == self.valid_at(now),
    {
        let now = utc_now_millis();
        self.is_valid_at(now)
    }
}

/// A bounded cache of values that expire, keyed by title identifier.
pub struct Cache {
    store: Store,
}

impl Cache {
    /// The entries of the cache, the most recently used first: for each key
    /// the value and the time at which it expires.
    pub closed spec fn entries(self) -> Entries {
        lru_entries(self.store)
    }

    /// The number of entries that the cache can hold.
    pub closed spec fn capacity(self) -> nat {
        lru_capacity(self.store)
    }

    /// Whether the cache holds no more than it can and no key twice.
    pub open spec fn wf(self) -> bool {
        well_formed(self.entries(), self.capacity())
    }

    /// An empty cache for `size` entries.
    pub fn new(size: usize) -> (cache: Self)
        requires
            0 < size <= MAX_CAPACITY,
        ensures
            cache.wf(),
            cache.entries() == Seq::<(u32, (bool, i64))>::empty(),
            cache.capacity() == size,
    {
        Cache { store: lru_new(size) }
    }

    /// What the cache holds for `key` at `now`: the entry, unless it has
    /// expired. A key that is read becomes the most recently used, expired
    /// or not; no entry is removed.
    pub fn get_at(&mut self, key: &u32, now: i64) -> (found: Option<TimedCacheEntry<bool>>)
        requires
            old(self).wf(),
        ensures
            final(self).wf(),
            final(self).capacity() == old(self).capacity(),
            final(self).entries() == touched(old(self).entries(), *key),
            answers_unexpired(old(self).entries(), *key, now, found),
    {
        proof {
            lemma_touched(lru_entries(self.store), lru_capacity(self.store), *key, *key);
        }
        match lru_get(&mut self.store, *key) {
            Some(slot) => {
                if slot.1 > now {
                    Some(TimedCacheEntry { value: slot.0, timestamp: slot.1 })
                } else {
                    None
                }
            },
            None => None,
        }
    }

    /// What the cache holds for `key` by the clock: the entry, unless it
    /// has expired. Whatever the clock shows, the answer is nothing or the
    /// entry of the key, and the key becomes the most recently used.
    pub fn get(&mut self, key: &u32) -> (found: Option<TimedCacheEntry<bool>>)
        requires
            old(self).wf(),
        ensures
            final(self).wf(),
            final(self).capacity() == old(self).capacity(),
            final(self).entries() == touched(old(self).entries(), *key),
            exists|now: i64| answers_unexpired(old(self).entries(), *key, now, found),
    {
        let now = utc_now_millis();
        self.get_at(key, now)
    }

    /// Stores `value` for `key`, in place of what the key had. The key
    /// becomes the most recently used; where it is new and the cache is
    /// full, the least recently used entry is given up.
    pub fn set(&mut self, key: u32, value: TimedCacheEntry<bool>)
        requires
            old(self).wf(),
        ensures
            final(self).wf(),
            final(self).capacity() == old(self).capacity(),
            final(self).entries() == inserted(
                old(self).entries(),
                old(self).capacity(),
                key,
                (value.value, value.timestamp),
            ),
    {
        proof {
            lemma_inserted(
                lru_entries(self.store),
                lru_capacity(self.store),
                key,
                (value.value, value.timestamp),
                key,
            );
        }
        let _ = lru_put(&mut self.store, key, (value.value, value.timestamp));
    }

    /// Removes what the cache holds for `key`, expired or not.
    pub fn invalidate(&mut self, key: &u32)
        requires
            old(self).wf(),
        ensures
            final(self).wf(),
            final(self).capacity() == old(self).capacity(),
            final(self).entries() == without(old(self).entries(), *key),
    {
        proof {
            lemma_removed(lru_entries(self.store), lru_capacity(self.store), *key);
        }
        let _ = lru_pop(&mut self.store, *key);
    }
}

/// The cache of update checks: for a title, whether it needs an update and
/// when that was found out. A check counts for `CACHE_TTL_MINUTES`.
pub struct UpdateCache {
    cache: Store,
}

impl UpdateCache {
    /// The entries of the cache, the most recently used first: for each
    /// title the verdict and the time of the check.
    pub closed spec fn entries(self) -> Entries {
        lru_entries(self.cache)
    }

    /// The number of entries that the cache can hold.
    pub closed spec fn capacity(self) -> nat {
        lru_capacity(self.cache)
    }

    /// Whether the cache holds no more than it can and no title twice.
    pub open spec fn wf(self) -> bool {
        well_formed(self.entries(), self.capacity())
    }

    /// An empty cache for `CACHE_SIZE` titles.
    pub fn new() -> (cache: Self)
        ensures
            cache.wf(),
            cache.entries() == Seq::<(u32, (bool, i64))>::empty(),
            cache.capacity() == CACHE_SIZE,
    {
        UpdateCache { cache: lru_new(CACHE_SIZE) }
    }

    /// The check of `app_id` as of `now`, unless it is too old. A title
    /// that is read becomes the most recently used; no entry is removed.
    pub fn get_at(&mut self, app_id: u32, now: i64) -> (found: Option<CacheEntry>)
        requires
            old(self).wf(),
        ensures
            final(self).wf(),
            final(self).capacity() == old(self).capacity(),
            final(self).entries() == touched(old(self).entries(), app_id),
            answers_recent(old(self).entries(), app_id, now, found),
    {
        proof {
            lemma_touched(lru_entries(self.cache), lru_capacity(self.cache), app_id, app_id);
        }
        match lru_get(&mut self.cache, app_id) {
            Some(slot) => {
                let entry = CacheEntry { needs_update: slot.0, checked_at: slot.1 };
                if entry.is_valid_at(now) {
                    Some(entry)
                } else {
                    None
                }
            },
            None => None,
        }
    }

    /// The check of `app_id` by the clock, unless it is too old. Whatever
    /// the clock shows, the answer is nothing or the entry of the title, and
    /// the title becomes the most recently used.
    pub fn get(&mut self, app_id: u32) -> (found: Option<CacheEntry>)
        requires
            old(self).wf(),
        ensures
            final(self).wf(),
            final(self).capacity() == old(self).capacity(),
            final(self).entries() == touched(old(self).entries(), app_id),
            exists|now: i64| answers_recent(old(self).entries(), app_id, now, found),
    {
        let now = utc_now_millis();
        self.get_at(app_id, now)
    }

    /// Records that `app_id` was checked at `now` with the given verdict.
    pub fn set_at(&mut self, app_id: u32, needs_update: bool, now: i64)
        requires
            old(self).wf(),
        ensures
            final(self).wf(),
            final(self).capacity() == old(self).capacity(),
            final(self).entries() == inserted(
                old(self).entries(),
                old(self).capacity(),
                app_id,
                (needs_update, now),
            ),
    {
        proof {
            lemma_inserted(
                lru_entries(self.cache),
                lru_capacity(self.cache),
                app_id,
                (needs_update, now),
                app_id,
            );
        }
        let _ = lru_put(&mut self.cache, app_id, (needs_update, now));
    }

    /// Records that `app_id` was checked just now, by the clock, with the
    /// given verdict.
    pub fn set(&mut self, app_id: u32, needs_update: bool)
        requires
            old(self).wf(),
        ensures
            final(self).wf(),
            final(self).capacity() == old(self).capacity(),
            exists|now: i64|
                final(self).entries() == inserted(
                    old(self).entries(),
                    old(self).capacity(),
                    app_id,
                    (needs_update, now),
                ),
    {
        let now = utc_now_millis();
        self.set_at(app_id, needs_update, now)
    }

    /// Removes the check of `app_id`, old or not.
    pub fn invalidate(&mut self, app_id: u32)
        requires
            old(self).wf(),
        ensures
            final(self).wf(),
            final(self).capacity() == old(self).capacity(),
            final(self).entries() == without(old(self).entries(), app_id),
    {
        proof {
            lemma_removed(lru_entries(self.cache), lru_capacity(self.cache), app_id);
        }
        let _ = lru_pop(&mut self.cache, app_id);
    }

    /// Removes every check.
    pub fn clear(&mut self)
        requires
            old(self).wf(),
        ensures
            final(self).wf(),
            final(self).capacity() == old(self).capacity(),
            final(self).entries() == Seq::<(u32, (bool, i64))>::empty(),
    {
        lru_clear(&mut self.cache);
    }
}

impl Default for UpdateCache {
    fn default() -> (cache: Self)
        ensures
            cache.wf(),
            cache.entries() == Seq::<(u32, (bool, i64))>::empty(),
            cache.capacity() == CACHE_SIZE,
    {
        Self::new()
    }
}

} // verus!
