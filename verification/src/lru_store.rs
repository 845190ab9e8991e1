//! The least-recently-used store of the `lru` crate, keyed by title
//! identifier, as the caches of this library use it.
//!
//! Nothing in this file is proved. It states what the methods of
//! `lru::LruCache` do to the entries of a store, taken as a sequence from
//! the most recently used entry to the least recently used one.

use crate::cache::recency::{inserted, lookup, touched, without};
use vstd::prelude::*;

verus! {

/// `lru::LruCache`, carried as it is. What a store holds is known only
/// through `lru_entries` and `lru_capacity`.
#[verifier::external_type_specification]
#[verifier::external_body]
#[verifier::reject_recursive_types(K)]
#[verifier::reject_recursive_types(V)]
#[verifier::reject_recursive_types(S)]
pub struct ExLruCache<K, V, S>(lru::LruCache<K, V, S>);

/// `lru::DefaultHasher`, the hasher that a `LruCache` has where none is
/// named. It is carried along and never looked into.
#[verifier::external_type_specification]
#[verifier::external_body]
pub struct ExDefaultHasher(lru::DefaultHasher);

/// The store that the caches keep: for a title's identifier, a flag and a
/// time in milliseconds.
pub type Store = lru::LruCache<u32, (bool, i64)>;

/// The largest number of entries that a store is made for.
pub const MAX_CAPACITY: usize = 1_048_576;

/// The entries of a store, from the one that was written or read last to
/// the one that was written or read longest ago.
pub uninterp spec fn lru_entries(store: lru::LruCache<u32, (bool, i64)>) -> Seq<(u32, (bool, i64))>;

/// The number of entries that a store was made to hold (`LruCache::cap`).
pub uninterp spec fn lru_capacity(store: lru::LruCache<u32, (bool, i64)>) -> nat;

/// `LruCache::new`: an empty store that holds at most `cap` entries. The
/// call reserves room for `cap` entries at once, so `cap` is kept within
/// what can be asked of the allocator; it is not zero because the crate
/// takes a `NonZeroUsize`.
#[verifier::external_body]
pub(crate) fn lru_new(cap: usize) -> (store: Store)
    requires
        0 < cap <= MAX_CAPACITY,
    ensures
        lru_entries(store) == Seq::<(u32, (bool, i64))>::empty(),
        lru_capacity(store) == cap,
{
    lru::LruCache::new(std::num::NonZeroUsize::new(cap).unwrap())
}

/// `LruCache::get`: what the store keeps for `key`, if anything; an entry
/// that is found moves to the front, and nothing else changes.
#[verifier::external_body]
pub(crate) fn lru_get(store: &mut Store, key: u32) -> (found: Option<(bool, i64)>)
    ensures
        found == lookup(lru_entries(*old(store)), key),
        lru_entries(*final(store)) == touched(lru_entries(*old(store)), key),
        lru_capacity(*final(store)) == lru_capacity(*old(store)),
{
    store.get(&key).copied()
}

/// `LruCache::put`: writes `slot` for `key` and returns what the key had
/// before. The new entry stands at the front; where the key is new and the
/// store is full, the entry at the back is dropped.
#[verifier::external_body]
pub(crate) fn lru_put(
    store: &mut Store,
    key: u32,
    slot: (bool, i64),
) -> (before: Option<(bool, i64)>)
    ensures
        before == lookup(lru_entries(*old(store)), key),
        lru_entries(*final(store)) == inserted(
            lru_entries(*old(store)),
            lru_capacity(*old(store)),
            key,
            slot,
        ),
        lru_capacity(*final(store)) == lru_capacity(*old(store)),
{
    store.put(key, slot)
}

/// `LruCache::pop`: removes the entry of `key` and returns what it held;
/// the other entries keep their order.
#[verifier::external_body]
pub(crate) fn lru_pop(store: &mut Store, key: u32) -> (removed: Option<(bool, i64)>)
    ensures
        removed == lookup(lru_entries(*old(store)), key),
        lru_entries(*final(store)) == without(lru_entries(*old(store)), key),
        lru_capacity(*final(store)) == lru_capacity(*old(store)),
{
    store.pop(&key)
}

/// `LruCache::clear`: removes every entry.
#[verifier::external_body]
pub(crate) fn lru_clear(store: &mut Store)
    ensures
        lru_entries(*final(store)) == Seq::<(u32, (bool, i64))>::empty(),
        lru_capacity(*final(store)) == lru_capacity(*old(store)),
{
    store.clear()
}

} // verus!
