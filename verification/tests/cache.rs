use locd::cache::ResponseCache;

#[test]
fn empty_cache_finds_nothing() {
    let cache = ResponseCache::new();
    assert_eq!(cache.get(&[]), None);
    assert_eq!(cache.get(&[1, 2, 3]), None);
}

#[test]
fn insert_then_get_returns_the_value() {
    let mut cache = ResponseCache::new();
    cache.insert(vec![1, 2, 3], vec![10]);
    cache.insert(vec![], vec![20, 21]);
    assert_eq!(cache.get(&[1, 2, 3]), Some(&vec![10]));
    assert_eq!(cache.get(&[]), Some(&vec![20, 21]));
    assert_eq!(cache.get(&[1, 2]), None);
    assert_eq!(cache.get(&[1, 2, 3, 4]), None);
}

#[test]
fn second_write_for_a_key_overwrites() {
    let mut cache = ResponseCache::new();
    cache.insert(vec![1], vec![10]);
    cache.insert(vec![2], vec![20]);
    cache.insert(vec![1], vec![11, 12]);
    assert_eq!(cache.get(&[1]), Some(&vec![11, 12]));
    assert_eq!(cache.get(&[2]), Some(&vec![20]));
}
