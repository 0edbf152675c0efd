use bounded_cache::{longest, Cache, CacheEntry, CacheError};

#[test]
fn set_then_get_returns_value() {
    let mut cache: Cache<String, i32> = Cache::new(100);
    assert_eq!(cache.set("key1".to_string(), 42, Some(3600)), Ok(()));
    assert_eq!(cache.get(&"key1".to_string()), Some(42));
}

#[test]
fn zero_capacity_refuses_every_write() {
    let mut cache: Cache<String, i32> = Cache::new(0);
    assert_eq!(cache.set("a".to_string(), 1, None), Err(CacheError::Full));
    assert_eq!(cache.get(&"a".to_string()), None);
}

#[test]
fn distinct_writes_fill_to_capacity() {
    let mut cache: Cache<u64, u64> = Cache::new(3);
    for k in 0..3u64 {
        assert_eq!(cache.set(k, k * 10, None), Ok(()));
    }
    assert_eq!(cache.set(3, 30, None), Err(CacheError::Full));
    assert_eq!(cache.set(4, 40, Some(5)), Err(CacheError::Full));
    for k in 0..3u64 {
        assert_eq!(cache.get(&k), Some(k * 10));
    }
    assert_eq!(cache.get(&3), None);
}

#[test]
fn unwritten_key_is_absent() {
    let mut cache: Cache<String, i32> = Cache::new(4);
    assert_eq!(cache.get(&"missing".to_string()), None);
    assert_eq!(cache.set("present".to_string(), 5, None), Ok(()));
    assert_eq!(cache.get(&"missing".to_string()), None);
}

#[test]
fn last_write_wins() {
    let mut cache: Cache<String, i32> = Cache::new(4);
    assert_eq!(cache.set("k".to_string(), 1, None), Ok(()));
    assert_eq!(cache.set("k".to_string(), 2, Some(10)), Ok(()));
    assert_eq!(cache.get(&"k".to_string()), Some(2));
}

#[test]
fn present_key_refused_at_capacity() {
    let mut cache: Cache<String, i32> = Cache::new(2);
    assert_eq!(cache.set("a".to_string(), 1, None), Ok(()));
    assert_eq!(cache.set("b".to_string(), 2, None), Ok(()));
    assert_eq!(cache.set("a".to_string(), 3, None), Err(CacheError::Full));
    assert_eq!(cache.get(&"a".to_string()), Some(1));
}

#[test]
fn reads_do_not_change_state() {
    let mut cache: Cache<String, i32> = Cache::new(2);
    assert_eq!(cache.set("a".to_string(), 1, None), Ok(()));
    for _ in 0..10 {
        assert_eq!(cache.get(&"a".to_string()), Some(1));
        assert_eq!(cache.get(&"b".to_string()), None);
    }
    assert_eq!(cache.set("b".to_string(), 2, None), Ok(()));
    assert_eq!(cache.set("c".to_string(), 3, None), Err(CacheError::Full));
}

#[test]
fn single_slot_keeps_first_writer() {
    let mut cache: Cache<String, i32> = Cache::new(1);
    assert_eq!(cache.set("x".to_string(), 1, None), Ok(()));
    assert_eq!(cache.set("y".to_string(), 2, None), Err(CacheError::Full));
    assert_eq!(cache.get(&"x".to_string()), Some(1));
    assert_eq!(cache.get(&"y".to_string()), None);

    let mut other: Cache<String, i32> = Cache::new(1);
    assert_eq!(other.set("y".to_string(), 2, None), Ok(()));
    assert_eq!(other.set("x".to_string(), 1, None), Err(CacheError::Full));
    assert_eq!(other.get(&"y".to_string()), Some(2));
    assert_eq!(other.get(&"x".to_string()), None);
}

#[test]
fn set_at_uses_given_time() {
    let mut cache: Cache<u64, i32> = Cache::new(1);
    assert_eq!(cache.set_at(1, 9, Some(60), 1_000), Ok(()));
    assert_eq!(cache.get(&1), Some(9));
    assert_eq!(cache.set_at(2, 9, None, 2_000), Err(CacheError::Full));
}

#[test]
fn error_messages() {
    assert_eq!(CacheError::Full.message(), "Cache is full");
    assert_eq!(CacheError::NotFound.message(), "Key not found");
    assert_ne!(CacheError::Full, CacheError::NotFound);
}

#[test]
fn entry_holds_its_fields() {
    let e = CacheEntry { value: 7u8, created_at: 12, ttl: Some(3) };
    let c = e.clone();
    assert_eq!(c.value, 7);
    assert_eq!(c.created_at, 12);
    assert_eq!(c.ttl, Some(3));
}

#[test]
fn longest_picks_longer_or_second() {
    assert_eq!(longest("abc", "de"), "abc");
    assert_eq!(longest("ab", "cde"), "cde");
    assert_eq!(longest("xy", "zw"), "zw");
    assert_eq!(longest("", ""), "");
}
