use batchkit::BindCache;

#[test]
fn second_get_returns_identical_handle_without_creation() {
    let mut cache = BindCache::new();

    let (handle, created) = cache.get(42);
    assert!(created);
    assert_eq!(cache.creations(), 1);

    // The same key again: the identical handle, and no second creation.
    let (again, created_again) = cache.get(42);
    assert_eq!(again, handle);
    assert!(!created_again);
    assert_eq!(cache.creations(), 1);
}

#[test]
fn distinct_keys_get_distinct_handles() {
    let mut cache = BindCache::new();
    let (texture, _) = cache.get(7);
    let (sampler, _) = cache.get(8);
    assert_ne!(texture, sampler);
    assert_eq!(cache.creations(), 2);
}

#[test]
fn one_creation_per_distinct_key() {
    let mut cache = BindCache::new();
    let keys: [u64; 9] = [3, 1, 4, 1, 5, 9, 2, 6, 5];
    for &key in keys.iter() {
        cache.get(key);
    }
    // Seven distinct keys occur among the nine lookups.
    assert_eq!(cache.creations(), 7);
}
