use zendns::cache::ResponseCache;
use zendns::clock::{expiry_at, TTL_MILLIS};

#[test]
fn new_cache_is_empty() {
    let cache = ResponseCache::new();
    assert_eq!(cache.get("example.com"), None);
}

#[test]
fn get_returns_what_insert_stored() {
    let mut cache = ResponseCache::new();
    cache.insert("example.com".to_string(), (vec![1, 2, 3], 500));
    assert_eq!(cache.get("example.com"), Some((vec![1, 2, 3], 500)));
    assert_eq!(cache.get("other.example.com"), None);
}

#[test]
fn insert_replaces_the_entry_under_a_key() {
    let mut cache = ResponseCache::new();
    cache.insert("example.com".to_string(), (vec![1], 500));
    cache.insert("example.com".to_string(), (vec![2, 2], 900));
    assert_eq!(cache.get("example.com"), Some((vec![2, 2], 900)));
}

#[test]
fn remove_drops_only_the_given_key() {
    let mut cache = ResponseCache::new();
    cache.insert("a.example".to_string(), (vec![1], 500));
    cache.insert("b.example".to_string(), (vec![2], 500));
    cache.remove("a.example");
    assert_eq!(cache.get("a.example"), None);
    assert_eq!(cache.get("b.example"), Some((vec![2], 500)));
    cache.remove("missing.example");
    assert_eq!(cache.get("b.example"), Some((vec![2], 500)));
}

#[test]
fn lookup_serves_until_expiry_and_then_evicts() {
    let mut cache = ResponseCache::new();
    cache.insert("example.com".to_string(), (vec![9, 9], 1_000));
    assert_eq!(cache.lookup("example.com", 0), Some(vec![9, 9]));
    assert_eq!(cache.lookup("example.com", 999), Some(vec![9, 9]));
    assert_eq!(cache.get("example.com"), Some((vec![9, 9], 1_000)));
    assert_eq!(cache.lookup("example.com", 1_000), None);
    assert_eq!(cache.get("example.com"), None);
    assert_eq!(cache.lookup("example.com", 0), None);
}

#[test]
fn lookup_of_an_unknown_key_changes_nothing() {
    let mut cache = ResponseCache::new();
    cache.insert("example.com".to_string(), (vec![9], 10));
    assert_eq!(cache.lookup("other.example", 5), None);
    assert_eq!(cache.get("example.com"), Some((vec![9], 10)));
}

#[test]
fn expiry_is_sixty_seconds_after_now() {
    assert_eq!(TTL_MILLIS, 60_000);
    assert_eq!(expiry_at(0), Some(60_000));
    assert_eq!(expiry_at(1_234), Some(61_234));
    assert_eq!(expiry_at(u64::MAX - 60_000), Some(u64::MAX));
    assert_eq!(expiry_at(u64::MAX - 59_999), None);
}
