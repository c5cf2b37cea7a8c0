use xcargo::cache::{BuildCache, CacheEntry, StoreContents};
use xcargo::error::Error;

fn fresh() -> BuildCache {
    BuildCache::from_store(StoreContents::Missing).unwrap()
}

fn entry(target: &str, source_hash: u64, timestamp: u64, success: bool) -> CacheEntry {
    CacheEntry { target: target.to_string(), source_hash, timestamp, success }
}

#[test]
fn test_build_cache_creation() {
    let cache = fresh();

    assert!(cache.records().is_empty());
}

#[test]
fn test_cache_update_and_get() {
    let mut cache = fresh();

    cache.update("x86_64-unknown-linux-gnu".to_string(), 12345, true);

    let entry = cache.get("x86_64-unknown-linux-gnu").unwrap();
    assert_eq!(entry.target, "x86_64-unknown-linux-gnu");
    assert_eq!(entry.source_hash, 12345);
    assert!(entry.success);
}

#[test]
fn test_needs_rebuild() {
    let mut cache = fresh();

    // No cache entry - needs rebuild
    assert!(cache.needs_rebuild("x86_64-unknown-linux-gnu", 12345));

    // Add successful build
    cache.update("x86_64-unknown-linux-gnu".to_string(), 12345, true);

    // Same hash - no rebuild needed
    assert!(!cache.needs_rebuild("x86_64-unknown-linux-gnu", 12345));

    // Different hash - needs rebuild
    assert!(cache.needs_rebuild("x86_64-unknown-linux-gnu", 67890));

    // Failed build - needs rebuild
    cache.update("x86_64-pc-windows-gnu".to_string(), 11111, false);
    assert!(cache.needs_rebuild("x86_64-pc-windows-gnu", 11111));
}

#[test]
fn test_cache_save_and_load() {
    let stored = {
        let mut cache = fresh();
        cache.update("x86_64-unknown-linux-gnu".to_string(), 12345, true);
        cache.records().clone()
    };

    // Load cache in new instance
    let cache = BuildCache::from_store(StoreContents::Records(stored)).unwrap();
    let entry = cache.get("x86_64-unknown-linux-gnu").unwrap();
    assert_eq!(entry.source_hash, 12345);
}

#[test]
fn test_cache_clear() {
    let mut cache = fresh();

    cache.update("target1".to_string(), 111, true);
    cache.update("target2".to_string(), 222, true);

    assert_eq!(cache.records().len(), 2);

    cache.clear();
    assert!(cache.records().is_empty());
}

#[test]
fn test_cache_clear_target() {
    let mut cache = fresh();

    cache.update("target1".to_string(), 111, true);
    cache.update("target2".to_string(), 222, true);

    cache.clear_target("target1");

    assert!(cache.get("target1").is_none());
    assert!(cache.get("target2").is_some());
}

#[test]
fn test_cache_stats() {
    let mut cache = fresh();

    cache.update("target1".to_string(), 111, true);
    cache.update("target2".to_string(), 222, true);
    cache.update("target3".to_string(), 333, false);

    let stats = cache.stats();
    assert_eq!(stats.total_entries, 3);
    assert_eq!(stats.successful_builds, 2);
    assert_eq!(stats.failed_builds, 1);
}

#[test]
fn missing_store_is_an_empty_cache() {
    let loaded = fresh();
    let empty = BuildCache::empty();
    let default = BuildCache::default();
    assert_eq!(loaded.records(), empty.records());
    assert_eq!(default.records(), empty.records());
    assert!(loaded.get("x86_64-unknown-linux-gnu").is_none());
    assert!(loaded.needs_rebuild("x86_64-unknown-linux-gnu", 0));
    let stats = loaded.stats();
    assert_eq!((stats.total_entries, stats.successful_builds, stats.failed_builds), (0, 0, 0));
}

#[test]
fn store_without_records_is_an_empty_cache() {
    let loaded = BuildCache::from_store(StoreContents::Records(Vec::new())).unwrap();
    assert_eq!(loaded.records(), BuildCache::empty().records());
    assert!(loaded.needs_rebuild("x86_64-unknown-linux-gnu", 0));
}

#[test]
fn malformed_store_is_an_error() {
    let result = BuildCache::from_store(StoreContents::Malformed(
        "expected value at line 1 column 1".to_string(),
    ));
    match result {
        Err(e) => assert_eq!(
            e,
            Error::Config("Failed to parse cache: expected value at line 1 column 1".to_string())
        ),
        Ok(_) => panic!("a store that cannot be read must not load"),
    }
}

#[test]
fn load_keeps_cache_on_missing_and_malformed_store() {
    let mut cache = fresh();
    cache.update_at("a-b-c".to_string(), 1, 10, true);
    assert_eq!(cache.load(StoreContents::Missing), Ok(()));
    assert_eq!(cache.get("a-b-c"), Some(&entry("a-b-c", 1, 10, true)));
    assert!(cache.load(StoreContents::Malformed("bad".to_string())).is_err());
    assert_eq!(cache.get("a-b-c"), Some(&entry("a-b-c", 1, 10, true)));
}

#[test]
fn load_replaces_what_was_there() {
    let mut cache = fresh();
    cache.update_at("old".to_string(), 1, 10, true);
    let records = vec![("new".to_string(), entry("new", 2, 20, false))];
    assert_eq!(cache.load(StoreContents::Records(records)), Ok(()));
    assert!(cache.get("old").is_none());
    assert_eq!(cache.get("new"), Some(&entry("new", 2, 20, false)));
}

#[test]
fn later_record_of_a_key_wins() {
    let records = vec![
        ("t".to_string(), entry("t", 1, 10, true)),
        ("u".to_string(), entry("u", 5, 50, true)),
        ("t".to_string(), entry("t", 2, 20, false)),
    ];
    let cache = BuildCache::from_store(StoreContents::Records(records)).unwrap();
    assert_eq!(cache.records().len(), 2);
    assert_eq!(cache.get("t"), Some(&entry("t", 2, 20, false)));
    assert_eq!(cache.get("u"), Some(&entry("u", 5, 50, true)));
}

#[test]
fn record_is_found_under_its_key() {
    let records = vec![("key".to_string(), entry("other", 1, 10, true))];
    let cache = BuildCache::from_store(StoreContents::Records(records)).unwrap();
    assert!(cache.get("other").is_none());
    assert_eq!(cache.get("key"), Some(&entry("other", 1, 10, true)));
}

#[test]
fn update_at_overwrites_the_entry() {
    let mut cache = fresh();
    cache.update_at("t".to_string(), 1, 10, true);
    cache.update_at("u".to_string(), 9, 90, true);
    cache.update_at("t".to_string(), 2, 20, false);
    assert_eq!(cache.records().len(), 2);
    assert_eq!(cache.get("t"), Some(&entry("t", 2, 20, false)));
    assert_eq!(cache.get("u"), Some(&entry("u", 9, 90, true)));
}

#[test]
fn update_stamps_a_time_after_2020() {
    let mut cache = fresh();
    cache.update("t".to_string(), 1, true);
    assert!(cache.get("t").unwrap().timestamp > 1_577_836_800);
}

#[test]
fn failed_build_is_always_rebuilt() {
    let mut cache = fresh();
    cache.update("t".to_string(), 7, true);
    assert!(!cache.needs_rebuild("t", 7));
    cache.update("t".to_string(), 7, false);
    assert!(cache.needs_rebuild("t", 7));
    assert!(cache.needs_rebuild("t", 8));
    cache.update("t".to_string(), 8, true);
    assert!(cache.needs_rebuild("t", 7));
    assert!(!cache.needs_rebuild("t", 8));
}

#[test]
fn should_build_without_fingerprint() {
    let mut cache = fresh();
    cache.update("t".to_string(), 7, true);
    assert!(cache.should_build("t", None));
    assert!(!cache.should_build("t", Some(7)));
    assert!(cache.should_build("t", Some(8)));
    assert!(cache.should_build("u", Some(7)));
}

#[test]
fn record_without_fingerprint_changes_nothing() {
    let mut cache = fresh();
    cache.record("t".to_string(), None, true);
    assert!(cache.records().is_empty());
    cache.record("t".to_string(), Some(3), false);
    let found = cache.get("t").unwrap();
    assert_eq!((found.source_hash, found.success), (3, false));
}

#[test]
fn clear_target_of_unknown_target_changes_nothing() {
    let mut cache = fresh();
    cache.update_at("t".to_string(), 1, 10, true);
    cache.clear_target("u");
    assert_eq!(cache.records().len(), 1);
    assert_eq!(cache.get("t"), Some(&entry("t", 1, 10, true)));
}

#[test]
fn clear_target_keeps_the_others() {
    let mut cache = fresh();
    cache.update_at("a".to_string(), 1, 10, true);
    cache.update_at("b".to_string(), 2, 20, false);
    cache.update_at("c".to_string(), 3, 30, true);
    cache.clear_target("b");
    assert_eq!(cache.get("a"), Some(&entry("a", 1, 10, true)));
    assert_eq!(cache.get("b"), None);
    assert_eq!(cache.get("c"), Some(&entry("c", 3, 30, true)));
    let stats = cache.stats();
    assert_eq!((stats.total_entries, stats.successful_builds, stats.failed_builds), (2, 2, 0));
}
