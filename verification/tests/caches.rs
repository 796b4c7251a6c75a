use std::cell::Cell;
use std::sync::Arc;
use std::time::Duration;
use std::time::Instant;
use trade_sdk::caches::ClientsCache;
use trade_sdk::caches::DEFAULT_LIFETIME_SECS;
use trade_sdk::caches::NANOS_PER_SEC;

type Key = (String, String, bool, bool);

fn key(api_key: &str, demo: bool) -> Key {
    (api_key.to_string(), "secret".to_string(), demo, false)
}

fn cache() -> ClientsCache<Key, String> {
    ClientsCache::new()
}

#[test]
fn new_cache_is_empty_with_default_lifetime() {
    let c = cache();
    assert_eq!(c.size(), 0);
    assert_eq!(c.lifetime(), 600);
    assert_eq!(DEFAULT_LIFETIME_SECS, 600);
}

#[test]
fn fresh_key_misses_then_hits_the_created_handle() {
    let mut c = cache();
    assert!(c.get_at(&key("k", false), 0).is_none());
    let made = c.get_or_create_at(key("k", false), || Arc::new("client".to_string()), 10);
    let hit = c.get_at(&key("k", false), 11).unwrap();
    assert!(Arc::ptr_eq(&made, &hit));
    assert_eq!(c.size(), 1);
}

#[test]
fn get_or_create_does_not_build_on_a_hit() {
    let mut c = cache();
    let calls = Cell::new(0u32);
    let first = c.get_or_create_at(
        key("k", false),
        || {
            calls.set(calls.get() + 1);
            Arc::new("first".to_string())
        },
        0,
    );
    let second = c.get_or_create_at(
        key("k", false),
        || {
            calls.set(calls.get() + 1);
            Arc::new("second".to_string())
        },
        1,
    );
    assert_eq!(calls.get(), 1);
    assert!(Arc::ptr_eq(&first, &second));
    assert_eq!(*second, "first");
}

#[test]
fn get_or_create_rebuilds_over_an_expired_entry() {
    let mut c = cache();
    c.configure(1);
    let first = c.get_or_create_at(key("k", false), || Arc::new("first".to_string()), 0);
    let second =
        c.get_or_create_at(key("k", false), || Arc::new("second".to_string()), NANOS_PER_SEC);
    assert!(!Arc::ptr_eq(&first, &second));
    assert_eq!(c.size(), 1);
    assert_eq!(*c.get_at(&key("k", false), NANOS_PER_SEC + 1).unwrap(), "second");
    assert_eq!(*first, "first");
}

#[test]
fn entry_is_served_strictly_before_its_expiry() {
    let mut c = cache();
    c.configure(2);
    c.add_at(key("k", false), Arc::new("client".to_string()), 5);
    assert!(c.get_at(&key("k", false), 5).is_some());
    assert!(c.get_at(&key("k", false), 2_000_000_004).is_some());
    assert!(c.get_at(&key("k", false), 2_000_000_005).is_none());
    assert!(c.get_at(&key("k", false), 2_000_000_006).is_none());
}

#[test]
fn expired_entry_is_a_miss_and_keeps_its_place() {
    let mut c = cache();
    c.configure(1);
    c.add_at(key("k", false), Arc::new("client".to_string()), 0);
    assert!(c.get_at(&key("k", false), NANOS_PER_SEC).is_none());
    assert_eq!(c.size(), 1);
}

#[test]
fn zero_lifetime_entry_is_never_served() {
    let mut c = cache();
    c.configure(0);
    c.add_at(key("k", false), Arc::new("client".to_string()), 7);
    assert!(c.get_at(&key("k", false), 7).is_none());
    assert_eq!(c.size(), 1);
}

#[test]
fn entry_expires_on_the_clock_without_a_sweep() {
    let mut c = cache();
    c.configure(1);
    c.add(key("k", false), Arc::new("client".to_string()));
    assert!(c.get(&key("k", false)).is_some());
    let start = Instant::now();
    while start.elapsed() < Duration::from_millis(1100) {
        std::hint::spin_loop();
    }
    assert!(c.get(&key("k", false)).is_none());
    assert_eq!(c.size(), 1);
    assert_eq!(c.cleanup_expired(), 1);
    assert_eq!(c.size(), 0);
}

#[test]
fn configure_leaves_written_entries_their_expiry() {
    let mut c = cache();
    c.configure(10);
    c.add_at(key("old", false), Arc::new("old".to_string()), 0);
    c.configure(1);
    assert_eq!(c.lifetime(), 1);
    c.add_at(key("new", false), Arc::new("new".to_string()), 0);
    assert!(c.get_at(&key("old", false), 5 * NANOS_PER_SEC).is_some());
    assert!(c.get_at(&key("new", false), 5 * NANOS_PER_SEC).is_none());
}

#[test]
fn add_overwrites_the_entry_of_its_key() {
    let mut c = cache();
    c.add_at(key("k", false), Arc::new("first".to_string()), 0);
    c.add_at(key("k", false), Arc::new("second".to_string()), 0);
    assert_eq!(c.size(), 1);
    assert_eq!(*c.get_at(&key("k", false), 1).unwrap(), "second");
}

#[test]
fn add_refreshes_an_expired_entry() {
    let mut c = cache();
    c.configure(1);
    c.add_at(key("k", false), Arc::new("first".to_string()), 0);
    c.add_at(key("k", false), Arc::new("second".to_string()), 3 * NANOS_PER_SEC);
    assert_eq!(c.size(), 1);
    assert_eq!(*c.get_at(&key("k", false), 3 * NANOS_PER_SEC + 1).unwrap(), "second");
}

#[test]
fn sweep_removes_exactly_the_expired_entries() {
    let mut c = cache();
    c.configure(1);
    c.add_at(key("a", false), Arc::new("a".to_string()), 0);
    c.add_at(key("b", false), Arc::new("b".to_string()), 1);
    c.configure(100);
    c.add_at(key("c", false), Arc::new("c".to_string()), 0);
    c.add_at(key("d", false), Arc::new("d".to_string()), 0);
    c.add_at(key("e", false), Arc::new("e".to_string()), 0);
    assert_eq!(c.size(), 5);
    let removed = c.cleanup_expired_at(2 * NANOS_PER_SEC);
    assert_eq!(removed, 2);
    assert_eq!(c.size(), 3);
    assert!(c.get_at(&key("a", false), 0).is_none());
    assert!(c.get_at(&key("b", false), 0).is_none());
    assert_eq!(*c.get_at(&key("c", false), 0).unwrap(), "c");
    assert_eq!(*c.get_at(&key("d", false), 0).unwrap(), "d");
    assert_eq!(*c.get_at(&key("e", false), 0).unwrap(), "e");
}

#[test]
fn sweep_removes_an_entry_at_its_expiry_instant() {
    let mut c = cache();
    c.configure(1);
    c.add_at(key("k", false), Arc::new("k".to_string()), 0);
    assert_eq!(c.cleanup_expired_at(NANOS_PER_SEC - 1), 0);
    assert_eq!(c.size(), 1);
    assert_eq!(c.cleanup_expired_at(NANOS_PER_SEC), 1);
    assert_eq!(c.size(), 0);
}

#[test]
fn sweep_of_an_empty_cache_removes_nothing() {
    let mut c = cache();
    assert_eq!(c.cleanup_expired_at(1), 0);
    assert_eq!(c.cleanup_expired(), 0);
}

#[test]
fn eviction_leaves_handed_out_handles_good() {
    let mut c = cache();
    c.configure(1);
    let held = c.get_or_create_at(key("k", false), || Arc::new("client".to_string()), 0);
    assert_eq!(c.cleanup_expired_at(NANOS_PER_SEC), 1);
    assert_eq!(*held, "client");
    assert_eq!(Arc::strong_count(&held), 1);
}

#[test]
fn clear_empties_the_cache_whatever_the_expiries() {
    let mut c = cache();
    c.configure(1);
    c.add_at(key("dead", false), Arc::new("dead".to_string()), 0);
    c.configure(1000);
    c.add_at(key("live", false), Arc::new("live".to_string()), 0);
    c.clear();
    assert_eq!(c.size(), 0);
    assert!(c.get_at(&key("live", false), 0).is_none());
    assert_eq!(c.lifetime(), 1000);
}

#[test]
fn keys_that_differ_in_the_demo_flag_are_independent() {
    let mut c = cache();
    let live = c.get_or_create_at(key("k", false), || Arc::new("live".to_string()), 0);
    assert!(c.get_at(&key("k", true), 0).is_none());
    let demo = c.get_or_create_at(key("k", true), || Arc::new("demo".to_string()), 0);
    assert!(!Arc::ptr_eq(&live, &demo));
    assert_eq!(c.size(), 2);
    assert_eq!(*c.get_at(&key("k", false), 1).unwrap(), "live");
    assert_eq!(*c.get_at(&key("k", true), 1).unwrap(), "demo");
}

#[test]
fn clock_reads_do_not_go_back() {
    let c = cache();
    let first = c.now();
    let second = c.now();
    assert!(first <= second);
}
