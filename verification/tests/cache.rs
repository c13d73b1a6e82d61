use forbidden_library::cache::QueryCache;
use std::time::Duration;

const SECOND: u128 = 1_000_000_000;

#[test]
fn test_query_cache_basic() {
    let mut cache = QueryCache::new(60);

    assert!(cache.get("test_key").is_none());

    cache.set("test_key".to_string(), "test_value".to_string(), None);

    assert_eq!(cache.get("test_key"), Some("test_value".to_string()));
}

#[test]
fn test_query_cache_invalidation() {
    let mut cache = QueryCache::new(60);

    cache.set("test_key".to_string(), "test_value".to_string(), None);
    assert_eq!(cache.get("test_key"), Some("test_value".to_string()));

    cache.invalidate("test_key");
    assert!(cache.get("test_key").is_none());
}

#[test]
fn test_query_cache_stats() {
    let mut cache = QueryCache::new(60);

    cache.set("key1".to_string(), "value1".to_string(), None);
    cache.set("key2".to_string(), "value2".to_string(), None);

    let stats = cache.stats();
    assert_eq!(stats.total_entries, 2);
    assert_eq!(stats.active_entries, 2);
    assert_eq!(stats.expired_entries, 0);
}

#[test]
fn entry_is_not_returned_once_its_ttl_has_elapsed() {
    let mut cache = QueryCache::new(60);
    cache.set_at("k".to_string(), "v".to_string(), SECOND, 5 * SECOND);

    assert_eq!(cache.get_at("k", 5 * SECOND), Some("v".to_string()));
    assert_eq!(cache.get_at("k", 6 * SECOND - 1), Some("v".to_string()));
    assert_eq!(cache.stats_at(6 * SECOND - 1).active_entries, 1);

    let stats = cache.stats_at(7 * SECOND);
    assert_eq!(stats.total_entries, 1);
    assert_eq!(stats.expired_entries, 1);
    assert_eq!(stats.active_entries, 0);

    assert_eq!(cache.get_at("k", 7 * SECOND), None);
    assert_eq!(cache.stats_at(7 * SECOND).total_entries, 0);
    assert_eq!(cache.get_at("k", 5 * SECOND), None);
}

#[test]
fn entry_expires_exactly_when_elapsed_time_reaches_ttl() {
    let mut cache = QueryCache::new(60);
    cache.set_at("k".to_string(), "v".to_string(), SECOND, 0);
    assert_eq!(cache.get_at("k", SECOND), None);

    cache.set_at("zero".to_string(), "v".to_string(), 0, 10);
    assert_eq!(cache.get_at("zero", 10), None);

    cache.set_at("early".to_string(), "v".to_string(), 1, 10);
    assert_eq!(cache.get_at("early", 3), Some("v".to_string()));
}

#[test]
fn zero_default_ttl_expires_at_once() {
    let mut cache = QueryCache::new(0);
    cache.set("k".to_string(), "v".to_string(), None);
    assert_eq!(cache.get("k"), None);
    assert_eq!(cache.stats().total_entries, 0);
}

#[test]
fn custom_ttl_overrides_the_default() {
    let mut cache = QueryCache::new(0);
    cache.set("k".to_string(), "v".to_string(), Some(Duration::from_secs(3600)));
    assert_eq!(cache.get("k"), Some("v".to_string()));

    let mut cache = QueryCache::new(3600);
    cache.set("k".to_string(), "v".to_string(), Some(Duration::from_secs(0)));
    assert_eq!(cache.get("k"), None);
}

#[test]
fn set_replaces_and_clear_empties() {
    let mut cache = QueryCache::new(60);
    cache.set_at("a".to_string(), "1".to_string(), SECOND, 0);
    cache.set_at("b".to_string(), "2".to_string(), SECOND, 0);
    cache.set_at("a".to_string(), "3".to_string(), SECOND, 0);
    assert_eq!(cache.stats_at(0).total_entries, 2);
    assert_eq!(cache.get_at("a", 1), Some("3".to_string()));
    assert_eq!(cache.get_at("b", 1), Some("2".to_string()));

    cache.invalidate("missing");
    assert_eq!(cache.stats_at(0).total_entries, 2);
    cache.invalidate("a");
    assert_eq!(cache.get_at("a", 1), None);
    assert_eq!(cache.get_at("b", 1), Some("2".to_string()));

    cache.clear();
    assert_eq!(cache.stats_at(0).total_entries, 0);
    assert_eq!(cache.get_at("b", 1), None);
}
