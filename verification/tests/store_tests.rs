use synapse::codec::CacheResponce;
use synapse::store::L1Cache;
use synapse::store::now_millis;

#[test]
fn cache_get_miss() {
    let cache = L1Cache::new(10);
    assert!(matches!(cache.get("missing"), CacheResponce::Miss));
}

#[test]
fn cache_set_get_hit() {
    let mut cache = L1Cache::new(10);
    cache.set("alpha".to_string(), b"hello".to_vec(), None);
    match cache.get("alpha") {
        CacheResponce::Hit(bytes) => assert_eq!(bytes, b"hello".to_vec()),
        other => panic!("Expected Hit, got {:?}", other),
    }
}

#[test]
fn cache_ttl_expiry() {
    // The deadline arithmetic is driven by an explicit clock here: a write
    // with a one-second time-to-live reads as absent 1100 milliseconds on.
    let now = 1_000_u64;
    let mut cache = L1Cache::new(10);
    cache.set_at("beta".to_string(), b"value".to_vec(), Some(1), now);
    assert!(matches!(
        cache.get_at("beta", now + 1100),
        CacheResponce::Miss
    ));
}

#[test]
fn cache_ttl_not_yet_expired() {
    let now = 1_000_u64;
    let mut cache = L1Cache::new(10);
    cache.set_at("eph".to_string(), b"x".to_vec(), Some(1), now);
    assert!(matches!(
        cache.get_at("eph", now + 900),
        CacheResponce::Hit(v) if v == b"x"
    ));
}

#[test]
fn cache_capacity() {
    let ttl_secs = Some(30);
    let mut cache = L1Cache::new(3);
    cache.set("key_1".to_string(), b"value 1".to_vec(), ttl_secs);
    cache.set("key_2".to_string(), b"value 2".to_vec(), ttl_secs);
    cache.set("key_3".to_string(), b"value 3".to_vec(), ttl_secs);
    cache.set("key_4".to_string(), b"value 4".to_vec(), ttl_secs);

    cache.run_pending_tasks();
    let count = cache.entry_count();
    assert!(
        count == 3,
        "capacity=3 should not retain all keys: count={}",
        count
    );
}

#[test]
fn cache_last_write_wins() {
    let mut cache = L1Cache::new(10);
    cache.set("k".to_string(), b"v1".to_vec(), None);
    cache.set("k".to_string(), b"v2".to_vec(), None);
    assert!(matches!(cache.get("k"), CacheResponce::Hit(v) if v == b"v2"));
}

#[test]
fn cache_empty_value_and_key() {
    let mut cache = L1Cache::new(10);
    cache.set(String::new(), Vec::new(), None);
    assert!(matches!(cache.get(""), CacheResponce::Hit(v) if v.is_empty()));
}

#[test]
fn cache_clock_is_sane() {
    // The clock wrapper reads milliseconds since the Unix epoch: it is far
    // past the epoch by now and never runs backwards across two reads.
    let a = now_millis();
    let b = now_millis();
    assert!(a > 1_600_000_000_000);
    assert!(b >= a);
}
