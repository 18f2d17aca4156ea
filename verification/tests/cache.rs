use onebot_forward::cache::{Cache, CacheError, CacheModel};
use std::time::{Duration, Instant};

fn wait(d: Duration) {
    let start = Instant::now();
    while start.elapsed() < d {
        std::hint::spin_loop();
    }
}

#[test]
fn test_cache_key_expire() {
    let mut cache: CacheModel<String> = CacheModel::new("default");
    cache.set("test_key", "test_value".to_string());
    cache.expire("test_key", 2).unwrap();

    assert_eq!(cache.get("test_key"), Some("test_value".to_string()));

    wait(Duration::from_secs(3));

    assert_eq!(cache.get("test_key"), None);
}

#[test]
fn test_default_expire() {
    let mut cache: CacheModel<String> = CacheModel::new_with_default_expire("d", 1);
    cache.set("k", "v".to_string());

    assert_eq!(cache.get("k"), Some("v".to_string()));
    wait(Duration::from_secs(2));
    assert_eq!(cache.get("k"), None);
}

#[test]
fn test_delete_and_set() {
    let mut cache: CacheModel<String> = CacheModel::new("d2");
    cache.set("a", "1".to_string());
    assert_eq!(cache.get("a"), Some("1".to_string()));
    cache.delete("a");
    assert_eq!(cache.get("a"), None);
    cache.set("a", "2".to_string());
    assert_eq!(cache.get("a"), Some("2".to_string()));
}

#[test]
fn expire_missing_key_fails() {
    let mut cache: CacheModel<u32> = CacheModel::new("m");
    assert_eq!(cache.expire("nope", 5), Err(CacheError::KeyNotFound));
    assert_eq!(cache.get("nope"), None);
    assert_eq!(cache.name, "m");
}

#[test]
fn get_at_follows_stored_time() {
    let mut cache: CacheModel<u32> = CacheModel::new_with_default_expire("t", 10);
    cache.set_at("k", 7, 100);
    assert_eq!(cache.get_at("k", 109), Some(7));
    assert_eq!(cache.get_at("k", 110), None);
    assert_eq!(cache.get_at("k", 50), None);
    cache.set_at("k", 8, 100);
    cache.expire("k", 3).unwrap();
    assert_eq!(cache.get_at("k", 102), Some(8));
    assert_eq!(cache.get_at("k", 103), None);
}

#[test]
fn set_clears_own_expiry() {
    let mut cache: CacheModel<u32> = CacheModel::new("s");
    cache.set_at("k", 1, 0);
    cache.expire("k", 1).unwrap();
    cache.set_at("k", 2, 0);
    assert_eq!(cache.get_at("k", 1_000_000), Some(2));
}

#[test]
fn last_expire_decides_and_absence_persists() {
    let mut cache: CacheModel<u32> = CacheModel::new_with_default_expire("h", 5);
    cache.set_at("k", 1, 100);
    cache.expire("k", 20).unwrap();
    assert_eq!(cache.get_at("k", 110), Some(1));
    cache.expire("k", 2).unwrap();
    assert_eq!(cache.get_at("k", 101), Some(1));
    assert_eq!(cache.get_at("k", 102), None);
    assert_eq!(cache.get_at("k", 50), None);
    assert_eq!(cache.expire("k", 100), Err(CacheError::KeyNotFound));
    cache.set_at("other", 2, 0);
    assert_eq!(cache.get_at("k", 0), None);
    cache.set_at("k", 3, 200);
    assert_eq!(cache.get_at("k", 201), Some(3));
}

#[test]
fn entry_history() {
    // default 10s; the last expiry set after the write decides
    let mut cache: CacheModel<String> = CacheModel::new_with_default_expire("h2", 10);
    cache.set_at("k", "v".to_string(), 1000);
    cache.expire("k", 30).unwrap();
    cache.expire("k", 20).unwrap();
    assert_eq!(cache.get_at("k", 1015), Some("v".to_string()));
    assert_eq!(cache.get_at("k", 1020), None);
    assert_eq!(cache.get_at("k", 1001), None);
    cache.set_at("k", "w".to_string(), 2000);
    assert_eq!(cache.get_at("k", 2009), Some("w".to_string()));
    assert_eq!(cache.get_at("k", 2010), None);
}
