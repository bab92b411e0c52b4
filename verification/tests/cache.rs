use state_accessor::VisibilityCache;

#[test]
fn empty_cache_remembers_nothing() {
    let mut cache = VisibilityCache::new(4);
    assert_eq!(cache.get("example.org", 7), None);
}

#[test]
fn inserted_verdict_is_found_again() {
    let mut cache = VisibilityCache::new(4);
    cache.insert("example.org", 7, true);
    cache.insert("example.org", 8, false);
    assert_eq!(cache.get("example.org", 7), Some(true));
    assert_eq!(cache.get("example.org", 8), Some(false));
}

#[test]
fn key_is_server_and_snapshot_together() {
    let mut cache = VisibilityCache::new(4);
    cache.insert("example.org", 7, true);
    assert_eq!(cache.get("other.org", 7), None);
    assert_eq!(cache.get("example.org", 8), None);
    assert_eq!(cache.get("example.org", 7), Some(true));
}

#[test]
fn least_recently_used_entry_is_evicted() {
    let mut cache = VisibilityCache::new(2);
    cache.insert("a.org", 1, true);
    cache.insert("b.org", 2, false);
    cache.insert("c.org", 3, true);
    assert_eq!(cache.get("a.org", 1), None);
    assert_eq!(cache.get("b.org", 2), Some(false));
    assert_eq!(cache.get("c.org", 3), Some(true));
}

#[test]
fn lookup_counts_as_use() {
    let mut cache = VisibilityCache::new(2);
    cache.insert("a.org", 1, true);
    cache.insert("b.org", 2, false);
    assert_eq!(cache.get("a.org", 1), Some(true));
    cache.insert("c.org", 3, true);
    assert_eq!(cache.get("b.org", 2), None);
    assert_eq!(cache.get("a.org", 1), Some(true));
    assert_eq!(cache.get("c.org", 3), Some(true));
}

#[test]
fn missed_lookup_does_not_change_the_order() {
    let mut cache = VisibilityCache::new(2);
    cache.insert("a.org", 1, true);
    cache.insert("b.org", 2, false);
    assert_eq!(cache.get("z.org", 9), None);
    cache.insert("c.org", 3, true);
    assert_eq!(cache.get("a.org", 1), None);
    assert_eq!(cache.get("b.org", 2), Some(false));
}

#[test]
fn storing_again_replaces_the_verdict_and_counts_as_use() {
    let mut cache = VisibilityCache::new(2);
    cache.insert("a.org", 1, true);
    cache.insert("b.org", 2, false);
    cache.insert("a.org", 1, false);
    assert_eq!(cache.get("a.org", 1), Some(false));
    cache.insert("c.org", 3, true);
    assert_eq!(cache.get("b.org", 2), None);
    assert_eq!(cache.get("a.org", 1), Some(false));
}

#[test]
fn storing_again_does_not_evict() {
    let mut cache = VisibilityCache::new(2);
    cache.insert("a.org", 1, true);
    cache.insert("b.org", 2, false);
    cache.insert("b.org", 2, true);
    assert_eq!(cache.get("a.org", 1), Some(true));
    assert_eq!(cache.get("b.org", 2), Some(true));
}

#[test]
fn cache_of_one_keeps_the_latest() {
    let mut cache = VisibilityCache::new(1);
    cache.insert("a.org", 1, true);
    assert_eq!(cache.get("a.org", 1), Some(true));
    cache.insert("b.org", 2, false);
    assert_eq!(cache.get("a.org", 1), None);
    assert_eq!(cache.get("b.org", 2), Some(false));
}

#[test]
fn cache_of_none_keeps_nothing() {
    let mut cache = VisibilityCache::new(0);
    cache.insert("a.org", 1, true);
    assert_eq!(cache.get("a.org", 1), None);
}
