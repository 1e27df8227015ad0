use geschichte::cache::DiffCache;

#[test]
fn test_lru_cache_eviction() {
    let mut cache = DiffCache::new(2);

    cache.put("key1".to_string(), "diff1".to_string());
    cache.put("key2".to_string(), "diff2".to_string());
    cache.put("key3".to_string(), "diff3".to_string());

    assert!(cache.get("key1").is_none());
    assert!(cache.get("key2").is_some());
    assert!(cache.get("key3").is_some());
}

#[test]
fn test_range_diff_caching() {
    let mut cache = DiffCache::new(10);
    let key = "abc123..def456";
    let diff = "sample diff content";

    cache.put(key.to_string(), diff.to_string());
    assert_eq!(cache.get(key).unwrap(), diff);
}

#[test]
fn test_cache_hit_updates_order() {
    let mut cache = DiffCache::new(2);

    cache.put("key1".to_string(), "diff1".to_string());
    cache.put("key2".to_string(), "diff2".to_string());

    cache.get("key1");

    cache.put("key3".to_string(), "diff3".to_string());

    assert!(cache.get("key1").is_some());
    assert!(cache.get("key2").is_none());
    assert!(cache.get("key3").is_some());
}

#[test]
fn test_cache_capacity_zero() {
    let mut cache = DiffCache::new(0);

    cache.put("key1".to_string(), "diff1".to_string());
    assert!(cache.get("key1").is_some());
}

#[test]
fn test_cache_overwrite_same_key() {
    let mut cache = DiffCache::new(2);

    cache.put("key1".to_string(), "diff1".to_string());
    cache.put("key1".to_string(), "diff1_updated".to_string());

    assert_eq!(cache.get("key1").unwrap(), "diff1_updated");
    assert_eq!(cache.len(), 1);
}

#[test]
fn capacity_zero_means_fifty() {
    let mut cache = DiffCache::new(0);
    for i in 0..51 {
        cache.put(format!("key{}", i), format!("diff{}", i));
    }
    assert_eq!(cache.len(), 50);
    assert!(!cache.contains("key0"));
    assert!(cache.contains("key1"));
    assert!(cache.contains("key50"));
}

#[test]
fn first_stored_is_first_dropped_without_lookup() {
    let capacity = 4;
    let mut cache = DiffCache::new(capacity);
    for i in 0..=capacity {
        cache.put(format!("k{}", i), format!("v{}", i));
    }
    assert!(!cache.contains("k0"));
    for i in 1..=capacity {
        assert_eq!(cache.get(&format!("k{}", i)), Some(format!("v{}", i)));
    }
}

#[test]
fn lookup_saves_the_first_stored_key() {
    let mut cache = DiffCache::new(3);
    cache.put("k0".to_string(), "v0".to_string());
    cache.put("k1".to_string(), "v1".to_string());
    assert_eq!(cache.get("k0"), Some("v0".to_string()));
    cache.put("k2".to_string(), "v2".to_string());
    cache.put("k3".to_string(), "v3".to_string());
    assert!(cache.contains("k0"));
    assert!(!cache.contains("k1"));
    assert!(cache.contains("k2"));
    assert!(cache.contains("k3"));
}

#[test]
fn contains_does_not_count_as_use() {
    let mut cache = DiffCache::new(2);
    cache.put("a".to_string(), "1".to_string());
    cache.put("b".to_string(), "2".to_string());
    assert!(cache.contains("a"));
    cache.put("c".to_string(), "3".to_string());
    assert!(!cache.contains("a"));
    assert!(cache.contains("b"));
}

#[test]
fn clear_empties_the_cache() {
    let mut cache = DiffCache::new(2);
    cache.put("a".to_string(), "1".to_string());
    cache.clear();
    assert_eq!(cache.len(), 0);
    assert!(cache.get("a").is_none());
    cache.put("b".to_string(), "2".to_string());
    assert_eq!(cache.get("b"), Some("2".to_string()));
}

#[test]
fn capacity_two_keeps_the_two_newest() {
    let mut cache = DiffCache::new(2);
    cache.put("a".to_string(), "1".to_string());
    cache.put("b".to_string(), "2".to_string());
    cache.put("c".to_string(), "3".to_string());
    assert_eq!(cache.get("a"), None);
    assert_eq!(cache.get("b"), Some("2".to_string()));
    assert_eq!(cache.get("c"), Some("3".to_string()));
}
