use communicator::platforms::mattermost::cache::Cache;

// Times are nanoseconds on the caller's clock, moved by hand between the
// calls.

#[test]
fn test_cache_set_and_get() {
    let mut cache: Cache<String> = Cache::new(300_000);
    cache.set_at("key1".to_string(), "value1".to_string(), 1_000);
    assert_eq!(cache.get_at("key1", 1_000), Some("value1".to_string()));
}

#[test]
fn test_cache_get_nonexistent() {
    let mut cache: Cache<String> = Cache::new(300_000);
    assert_eq!(cache.get_at("nonexistent", 0), None);
}

#[test]
fn test_cache_expiration() {
    let mut cache: Cache<String> = Cache::new(100);
    cache.set_at("key1".to_string(), "value1".to_string(), 5_000);
    assert_eq!(cache.get_at("key1", 5_000), Some("value1".to_string()));
    // 150 ms later the entry has expired, and the lookup drops it.
    assert_eq!(cache.get_at("key1", 5_150), None);
    assert_eq!(cache.len(), 0);
}

#[test]
fn expiry_is_exactly_at_the_time_to_live() {
    let mut cache: Cache<String> = Cache::new(100);
    cache.set_at("k".to_string(), "v".to_string(), 1_000);
    assert_eq!(cache.get_at("k", 1_099), Some("v".to_string()));
    assert_eq!(cache.get_at("k", 1_100), None);
}

#[test]
fn test_cache_invalidate() {
    let mut cache: Cache<String> = Cache::new(300_000);
    cache.set_at("key1".to_string(), "value1".to_string(), 0);
    assert_eq!(cache.get_at("key1", 0), Some("value1".to_string()));
    assert!(cache.invalidate("key1"));
    assert_eq!(cache.get_at("key1", 0), None);
}

#[test]
fn test_cache_invalidate_nonexistent() {
    let mut cache: Cache<String> = Cache::new(300_000);
    assert!(!cache.invalidate("nonexistent"));
}

#[test]
fn test_cache_clear() {
    let mut cache: Cache<String> = Cache::new(300_000);
    cache.set_at("key1".to_string(), "value1".to_string(), 0);
    cache.set_at("key2".to_string(), "value2".to_string(), 0);
    cache.set_at("key3".to_string(), "value3".to_string(), 0);
    assert_eq!(cache.len(), 3);
    cache.clear();
    assert_eq!(cache.len(), 0);
    assert!(cache.is_empty());
}

#[test]
fn test_cache_cleanup_expired() {
    let mut cache: Cache<String> = Cache::new(100);
    cache.set_at("key1".to_string(), "value1".to_string(), 0);
    cache.set_at("key2".to_string(), "value2".to_string(), 0);
    cache.set_at("key3".to_string(), "value3".to_string(), 150);
    assert_eq!(cache.len(), 3);
    let removed = cache.cleanup_expired_at(150);
    assert_eq!(removed, 2);
    assert_eq!(cache.len(), 1);
    assert_eq!(cache.get_at("key3", 150), Some("value3".to_string()));
    // A second clean-up at the same time finds nothing more to remove.
    assert_eq!(cache.cleanup_expired_at(150), 0);
}

#[test]
fn test_cache_stats() {
    let mut cache: Cache<String> = Cache::new(100);
    cache.set_at("key1".to_string(), "value1".to_string(), 0);
    cache.set_at("key2".to_string(), "value2".to_string(), 0);
    assert_eq!(cache.stats_at(0), (2, 0));
    assert_eq!(cache.stats_at(150), (2, 2));
}

#[test]
fn test_cache_replace_existing() {
    let mut cache: Cache<String> = Cache::new(300_000);
    cache.set_at("key1".to_string(), "value1".to_string(), 0);
    assert_eq!(cache.get_at("key1", 0), Some("value1".to_string()));
    cache.set_at("key1".to_string(), "value2".to_string(), 0);
    assert_eq!(cache.get_at("key1", 0), Some("value2".to_string()));
    assert_eq!(cache.len(), 1);
}

#[test]
fn replacing_renews_the_time_to_live() {
    let mut cache: Cache<String> = Cache::new(100);
    cache.set_at("k".to_string(), "old".to_string(), 0);
    cache.set_at("k".to_string(), "new".to_string(), 80);
    assert_eq!(cache.get_at("k", 150), Some("new".to_string()));
}

#[test]
fn test_cache_concurrent_access() {
    let mut cache: Cache<String> = Cache::new(300_000);
    for i in 0..10 {
        cache.set_at(format!("key{}", i), format!("value{}", i), 0);
    }
    assert_eq!(cache.len(), 10);
    for i in 0..10 {
        assert_eq!(cache.get_at(&format!("key{}", i), 0), Some(format!("value{}", i)));
    }
}

#[test]
fn test_cache_is_empty() {
    let mut cache: Cache<String> = Cache::new(300_000);
    assert!(cache.is_empty());
    cache.set_at("key1".to_string(), "value1".to_string(), 0);
    assert!(!cache.is_empty());
    cache.clear();
    assert!(cache.is_empty());
}

#[test]
fn clock_driven_calls_store_and_find() {
    // Five minutes, in nanoseconds.
    let mut cache: Cache<String> = Cache::new(300_000_000_000);
    assert_eq!(cache.ttl(), 300_000_000_000);
    cache.set("key".to_string(), "value".to_string());
    assert_eq!(cache.get("key"), Some("value".to_string()));
    assert_eq!(cache.stats(), (1, 0));
    assert_eq!(cache.cleanup_expired(), 0);
}

#[test]
fn clock_driven_entries_expire() {
    // A time-to-live of one nanosecond has passed by the next call.
    let mut cache: Cache<String> = Cache::new(1);
    cache.set("key".to_string(), "value".to_string());
    let start = std::time::Instant::now();
    while start.elapsed() < std::time::Duration::from_millis(2) {}
    assert_eq!(cache.get("key"), None);
    assert!(cache.is_empty());
}

#[test]
fn saturating_expiry_never_expires() {
    let mut cache: Cache<String> = Cache::new(u64::MAX);
    cache.set_at("k".to_string(), "v".to_string(), 10);
    assert_eq!(cache.get_at("k", u64::MAX - 1), Some("v".to_string()));
}
