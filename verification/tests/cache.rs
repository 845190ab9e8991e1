use updateio::cache::{
    expiry_at, Cache, CacheEntry, TimedCacheEntry, UpdateCache, CACHE_SIZE, CACHE_TTL_MINUTES,
    MILLIS_PER_MINUTE,
};

fn value_at(cache: &mut Cache, key: u32, now: i64) -> Option<bool> {
    cache.get_at(&key, now).map(|entry| entry.value)
}

#[test]
fn set_then_get_returns_the_value() {
    let mut cache = Cache::new(4);
    let now = 1_000_000;
    cache.set(7, TimedCacheEntry::new_at(true, now, 30));
    let found = cache.get_at(&7, now).expect("the entry is fresh");
    assert!(found.value);
    assert_eq!(found.timestamp, now + 30 * 60_000);
}

#[test]
fn get_after_the_ttl_returns_nothing() {
    let mut cache = Cache::new(4);
    let now = 1_000_000;
    cache.set(7, TimedCacheEntry::new_at(false, now, 30));
    assert_eq!(value_at(&mut cache, 7, now + 30 * 60_000 - 1), Some(false));
    assert_eq!(value_at(&mut cache, 7, now + 30 * 60_000), None);
    assert_eq!(value_at(&mut cache, 7, now + 31 * 60_000), None);
}

#[test]
fn expired_entry_is_not_removed_by_a_read() {
    let mut cache = Cache::new(4);
    cache.set(7, TimedCacheEntry::new_at(true, 0, 1));
    assert_eq!(value_at(&mut cache, 7, 60_000), None);
    assert_eq!(value_at(&mut cache, 7, 59_999), Some(true));
}

#[test]
fn invalidate_then_get_returns_nothing() {
    let mut cache = Cache::new(4);
    cache.set(7, TimedCacheEntry::new_at(true, 0, 1_000_000));
    cache.invalidate(&7);
    assert_eq!(value_at(&mut cache, 7, 0), None);
    cache.invalidate(&7);
    assert_eq!(value_at(&mut cache, 7, 0), None);
}

#[test]
fn overwriting_replaces_value_and_expiry() {
    let mut cache = Cache::new(4);
    cache.set(7, TimedCacheEntry::new_at(true, 0, 1));
    cache.set(7, TimedCacheEntry::new_at(false, 0, 10));
    let found = cache.get_at(&7, 60_000).expect("the second entry is fresh");
    assert!(!found.value);
    assert_eq!(found.timestamp, 600_000);
}

#[test]
fn full_cache_evicts_the_least_recently_used_key() {
    let mut cache = Cache::new(2);
    cache.set(1, TimedCacheEntry::new_at(true, 0, 10));
    cache.set(2, TimedCacheEntry::new_at(true, 0, 10));
    cache.set(3, TimedCacheEntry::new_at(true, 0, 10));
    assert_eq!(value_at(&mut cache, 1, 0), None);
    assert_eq!(value_at(&mut cache, 2, 0), Some(true));
    assert_eq!(value_at(&mut cache, 3, 0), Some(true));
}

#[test]
fn a_key_that_was_read_is_not_evicted() {
    let mut cache = Cache::new(2);
    cache.set(1, TimedCacheEntry::new_at(true, 0, 10));
    cache.set(2, TimedCacheEntry::new_at(false, 0, 10));
    assert_eq!(value_at(&mut cache, 1, 0), Some(true));
    cache.set(3, TimedCacheEntry::new_at(true, 0, 10));
    assert_eq!(value_at(&mut cache, 1, 0), Some(true));
    assert_eq!(value_at(&mut cache, 2, 0), None);
    assert_eq!(value_at(&mut cache, 3, 0), Some(true));
}

#[test]
fn overwriting_counts_as_a_use() {
    let mut cache = Cache::new(2);
    cache.set(1, TimedCacheEntry::new_at(true, 0, 10));
    cache.set(2, TimedCacheEntry::new_at(true, 0, 10));
    cache.set(1, TimedCacheEntry::new_at(false, 0, 10));
    cache.set(3, TimedCacheEntry::new_at(true, 0, 10));
    assert_eq!(value_at(&mut cache, 1, 0), Some(false));
    assert_eq!(value_at(&mut cache, 2, 0), None);
}

#[test]
fn reading_an_expired_key_still_counts_as_a_use() {
    let mut cache = Cache::new(2);
    cache.set(1, TimedCacheEntry::new_at(true, 0, 1));
    cache.set(2, TimedCacheEntry::new_at(true, 0, 10));
    assert_eq!(value_at(&mut cache, 1, 120_000), None);
    cache.set(3, TimedCacheEntry::new_at(true, 0, 10));
    assert_eq!(value_at(&mut cache, 2, 0), None);
    assert_eq!(value_at(&mut cache, 1, 0), Some(true));
}

#[test]
fn cache_of_one_entry_keeps_the_latest_key() {
    let mut cache = Cache::new(1);
    cache.set(1, TimedCacheEntry::new_at(true, 0, 10));
    assert_eq!(value_at(&mut cache, 1, 0), Some(true));
    cache.set(2, TimedCacheEntry::new_at(false, 0, 10));
    assert_eq!(value_at(&mut cache, 1, 0), None);
    assert_eq!(value_at(&mut cache, 2, 0), Some(false));
}

#[test]
fn cache_with_the_clock_reads_back_what_was_set() {
    let mut cache = Cache::new(4);
    cache.set(9, TimedCacheEntry::new(true, 60));
    assert_eq!(cache.get(&9).map(|entry| entry.value), Some(true));
    cache.set(10, TimedCacheEntry::new(true, -60));
    assert!(cache.get(&10).is_none());
    assert!(cache.get(&11).is_none());
}

#[test]
fn expiry_adds_the_minutes_and_stays_in_range() {
    assert_eq!(expiry_at(0, 30), 1_800_000);
    assert_eq!(expiry_at(1_000, 1), 61_000);
    assert_eq!(expiry_at(1_000, 0), 1_000);
    assert_eq!(expiry_at(1_000, -1), -59_000);
    assert_eq!(expiry_at(i64::MAX, 1), i64::MAX);
    assert_eq!(expiry_at(0, i64::MAX), i64::MAX);
    assert_eq!(expiry_at(i64::MIN, -1), i64::MIN);
    assert_eq!(expiry_at(0, i64::MIN), i64::MIN);
    assert_eq!(MILLIS_PER_MINUTE, 60_000);
}

#[test]
fn timed_entry_is_fresh_until_its_timestamp() {
    let entry = TimedCacheEntry::new_at(5u8, 100, 1);
    assert_eq!(entry.value, 5);
    assert_eq!(entry.timestamp, 60_100);
    assert!(entry.is_fresh_at(60_099));
    assert!(!entry.is_fresh_at(60_100));
}

#[test]
fn cache_entry_is_valid_for_thirty_minutes() {
    let entry = CacheEntry { needs_update: true, checked_at: 1_000 };
    assert!(entry.is_valid_at(1_000));
    assert!(entry.is_valid_at(1_000 + 1_799_999));
    assert!(!entry.is_valid_at(1_000 + 1_800_000));
    assert!(entry.is_valid_at(0));
    assert!(!CacheEntry { needs_update: true, checked_at: i64::MIN }.is_valid_at(i64::MAX));
    assert!(CacheEntry { needs_update: true, checked_at: i64::MAX }.is_valid_at(i64::MIN));
    assert_eq!(CACHE_TTL_MINUTES, 30);
}

#[test]
fn cache_entry_checked_now_is_valid_by_the_clock() {
    let mut cache = UpdateCache::new();
    cache.set(3, true);
    let found = cache.get(3).expect("a check made just now is valid");
    assert!(found.needs_update);
    assert!(found.is_valid());
    assert!(!CacheEntry { needs_update: true, checked_at: 0 }.is_valid());
}

#[test]
fn update_cache_answers_recent_checks_only() {
    let mut cache = UpdateCache::new();
    cache.set_at(5, true, 1_000);
    assert_eq!(cache.get_at(5, 1_000), Some(CacheEntry { needs_update: true, checked_at: 1_000 }));
    assert_eq!(
        cache.get_at(5, 1_000 + 1_799_999),
        Some(CacheEntry { needs_update: true, checked_at: 1_000 })
    );
    assert_eq!(cache.get_at(5, 1_000 + 1_800_000), None);
    assert_eq!(cache.get_at(6, 1_000), None);
}

#[test]
fn update_cache_invalidate_and_clear_remove_entries() {
    let mut cache = UpdateCache::default();
    cache.set_at(1, true, 0);
    cache.set_at(2, false, 0);
    cache.invalidate(1);
    assert_eq!(cache.get_at(1, 0), None);
    assert_eq!(cache.get_at(2, 0), Some(CacheEntry { needs_update: false, checked_at: 0 }));
    cache.clear();
    assert_eq!(cache.get_at(2, 0), None);
}

#[test]
fn update_cache_holds_a_thousand_titles() {
    let mut cache = UpdateCache::new();
    assert_eq!(CACHE_SIZE, 1000);
    let mut id: u32 = 0;
    while id < 1001 {
        cache.set_at(id, true, 0);
        id += 1;
    }
    assert_eq!(cache.get_at(0, 0), None);
    assert!(cache.get_at(1, 0).is_some());
    assert!(cache.get_at(1000, 0).is_some());
}
