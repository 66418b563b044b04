//! Tests for the TTL-expiring site-icon cache.

use newtabgen::cache::{SiteIconCache, CACHE_TTL_SECS};

const WEEK: u64 = 604800;

#[test]
fn ttl_is_one_week_of_seconds() {
    assert_eq!(CACHE_TTL_SECS, WEEK);
}

#[test]
fn fresh_entry_is_returned_unchanged() {
    let mut cache = SiteIconCache::new();
    let key = String::from("69u3vmk7");
    let bytes = vec![1u8, 2, 3, 4];
    cache.insert(&key, bytes.clone(), 1000);
    // Any lookup strictly before t + 7d returns the bytes unchanged.
    assert_eq!(cache.lookup(&key, 1000), Some(bytes.clone()));
    assert_eq!(cache.lookup(&key, 1000 + WEEK - 1), Some(bytes));
}

#[test]
fn entry_at_ttl_is_a_miss_and_removed() {
    let mut cache = SiteIconCache::new();
    let key = String::from("69u3vmk7");
    cache.insert(&key, vec![9u8], 1000);
    // At exactly t + 7d the entry counts as expired, is purged, and stays
    // gone afterwards.
    assert_eq!(cache.lookup(&key, 1000 + WEEK), None);
    assert_eq!(cache.lookup(&key, 1000), None);
}

#[test]
fn eight_day_old_entry_is_purged() {
    let mut cache = SiteIconCache::new();
    let key = String::from("n0pa5g17");
    let written_at = 100;
    let eight_days_later = written_at + 8 * 86400;
    cache.insert(&key, vec![5u8, 6], written_at);
    assert_eq!(cache.lookup(&key, eight_days_later), None);
    // The stale entry was deleted, not merely skipped.
    assert_eq!(cache.lookup(&key, written_at + 1), None);
}

#[test]
fn future_entry_fails_open() {
    let mut cache = SiteIconCache::new();
    let key = String::from("k");
    cache.insert(&key, vec![7u8], 5000);
    // A creation time after the lookup time is treated as not expired.
    assert_eq!(cache.lookup(&key, 10), Some(vec![7u8]));
}

#[test]
fn absent_key_is_a_miss() {
    let mut cache = SiteIconCache::new();
    assert_eq!(cache.lookup(&String::from("missing"), 0), None);
}

#[test]
fn insert_replaces_existing_entry() {
    let mut cache = SiteIconCache::new();
    let key = String::from("k");
    cache.insert(&key, vec![1u8], 10);
    cache.insert(&key, vec![2u8], 20);
    assert_eq!(cache.lookup(&key, 25), Some(vec![2u8]));
}

#[test]
fn other_keys_are_untouched_by_expiry() {
    let mut cache = SiteIconCache::new();
    let stale = String::from("stale");
    let fresh = String::from("fresh");
    cache.insert(&stale, vec![1u8], 0);
    cache.insert(&fresh, vec![2u8], WEEK);
    assert_eq!(cache.lookup(&stale, WEEK + 10), None);
    assert_eq!(cache.lookup(&fresh, WEEK + 10), Some(vec![2u8]));
}
