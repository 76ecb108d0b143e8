use mywebnote::cache::memory::StringMemoryCache;
use mywebnote::cache::redis_cache::{RedisArg, StringRedisCache};
use mywebnote::cache::CacheError;
use mywebnote::config::config_api::{MemoryProperties, RedisProperties};

fn create_test_cache() -> StringMemoryCache {
    let config = MemoryProperties {
        initial_capacity: Some(100),
        max_capacity: Some(1000),
        ttl: Some(3600000),
        eviction_policy: Some("LRU".to_string()),
    };
    StringMemoryCache::new(&config)
}

#[test]
fn test_set_and_get() {
    let mut cache = create_test_cache();
    assert!(cache.set("key1".to_string(), "value1".to_string(), None).unwrap());
    assert_eq!(cache.get("key1".to_string()).unwrap(), Some("value1".to_string()));
}

#[test]
fn test_set_nx() {
    let mut cache = create_test_cache();
    assert!(cache.set_nx("key2".to_string(), Some("value2".to_string())).unwrap());
    assert!(!cache.set_nx("key2".to_string(), Some("value3".to_string())).unwrap());
    assert_eq!(cache.get("key2".to_string()).unwrap(), Some("value2".to_string()));
}

#[test]
fn test_keys() {
    let mut cache = create_test_cache();

    assert!(cache.set("key1".to_string(), "value1".to_string(), None).unwrap());
    assert!(cache.set("key2".to_string(), "value2".to_string(), None).unwrap());
    assert!(cache.set("key3".to_string(), "value3".to_string(), None).unwrap());

    let mut expected: Vec<String> = vec!["key1".to_string(), "key2".to_string(), "key3".to_string()];
    let mut result: Vec<String> = cache.keys("key*".to_string()).unwrap();
    expected.sort();
    result.sort();

    assert_eq!(expected, result);
}

#[test]
fn test_hset_and_hget() {
    let mut cache = create_test_cache();

    let key = String::from("test_hset_and_hget");

    assert!(cache.hset_nx(key.clone(), String::from("field1"), String::from("value1")).unwrap());
    assert!(cache.hset_nx(key.clone(), String::from("field2"), String::from("value2")).unwrap());

    let result1 = cache.hget(key.clone(), Some("field1".to_string())).unwrap().unwrap();
    assert_eq!(result1, "value1".to_string());

    let result2 = cache.hget_all(key.clone()).unwrap().unwrap();
    let get = |name: &str| result2.iter().find(|(f, _)| f == name).map(|(_, v)| v.clone());
    assert_eq!(get("field1").unwrap(), "value1".to_string());
    assert_eq!(get("field2").unwrap(), "value2".to_string());
}

#[test]
fn test_hkeys() {
    let mut cache = create_test_cache();

    let key = String::from("test_hkeys");

    assert!(cache.hset_nx(key.clone(), String::from("field1"), String::from("value1")).unwrap());
    assert!(cache.hset_nx(key.clone(), String::from("field2"), String::from("value2")).unwrap());

    let result = cache.hget(key.clone(), Some("field1".to_string())).unwrap().unwrap();
    assert_eq!(result, "value1".to_string());

    let mut expected = vec!["field1".to_string(), "field2".to_string()];
    let mut keys = cache.hkeys(key.clone()).unwrap();
    expected.sort();
    keys.sort();

    assert_eq!(keys, expected);
}

#[test]
fn test_bit_operations() {
    let mut cache = create_test_cache();
    assert!(!cache.set_bit("bitkey".to_string(), 0, true).unwrap());
    assert!(cache.get_bit("bitkey".to_string(), 1).unwrap());
}

#[test]
fn test_delete() {
    let mut cache = create_test_cache();
    assert!(cache.set("key4".to_string(), "value4".to_string(), None).unwrap());
    assert!(cache.del("key4".to_string()).unwrap());
    assert_eq!(cache.get("key4".to_string()).unwrap(), None);
}

#[test]
fn overwrite_reads_latest_value() {
    let mut cache = create_test_cache();
    assert!(cache.set("k".to_string(), "one".to_string(), None).unwrap());
    assert!(cache.set("k".to_string(), "two".to_string(), Some(10)).unwrap());
    assert_eq!(cache.get("k".to_string()).unwrap(), Some("two".to_string()));
}

#[test]
fn write_keeps_other_keys() {
    let mut cache = create_test_cache();
    assert!(cache.set("a".to_string(), "1".to_string(), None).unwrap());
    assert!(cache.set("b".to_string(), "2".to_string(), None).unwrap());
    assert_eq!(cache.get("a".to_string()).unwrap(), Some("1".to_string()));
}

#[test]
fn set_nx_without_value_stores_nothing() {
    let mut cache = create_test_cache();
    assert!(!cache.set_nx("none".to_string(), None).unwrap());
    assert_eq!(cache.get("none".to_string()).unwrap(), None);
}

#[test]
fn keys_with_invalid_pattern_is_refused() {
    let cache = create_test_cache();
    assert!(cache.try_keys("(".to_string()).is_err());
}

#[test]
fn keys_filters_by_pattern() {
    let mut cache = create_test_cache();
    assert!(cache.set("user:1".to_string(), "a".to_string(), None).unwrap());
    assert!(cache.set("doc:1".to_string(), "b".to_string(), None).unwrap());
    assert_eq!(cache.try_keys("^user:".to_string()).unwrap(), vec!["user:1".to_string()]);
}

#[test]
fn hset_sets_fields_and_keeps_others() {
    let mut cache = create_test_cache();
    let key = "h".to_string();
    assert!(cache.hset_nx(key.clone(), "kept".to_string(), "k".to_string()).unwrap());
    let updates = vec![("f".to_string(), "1".to_string()), ("f".to_string(), "2".to_string())];
    assert!(cache.hset(key.clone(), Some(updates)).unwrap());
    assert_eq!(cache.hget(key.clone(), Some("f".to_string())).unwrap(), Some("2".to_string()));
    assert_eq!(cache.hget(key.clone(), Some("kept".to_string())).unwrap(), Some("k".to_string()));
    assert!(!cache.hset(key.clone(), None).unwrap());
}

#[test]
fn hset_nx_keeps_existing_field() {
    let mut cache = create_test_cache();
    let key = "h2".to_string();
    assert!(cache.hset_nx(key.clone(), "f".to_string(), "first".to_string()).unwrap());
    assert!(!cache.hset_nx(key.clone(), "f".to_string(), "second".to_string()).unwrap());
    assert_eq!(cache.hget(key.clone(), Some("f".to_string())).unwrap(), Some("first".to_string()));
}

#[test]
fn hget_without_field_or_entry_is_none() {
    let mut cache = create_test_cache();
    assert_eq!(cache.hget("missing".to_string(), Some("f".to_string())).unwrap(), None);
    assert!(cache.hset_nx("h3".to_string(), "f".to_string(), "v".to_string()).unwrap());
    assert_eq!(cache.hget("h3".to_string(), None).unwrap(), None);
    assert_eq!(cache.hget_all("missing".to_string()).unwrap(), None);
}

#[test]
fn hdel_removes_field() {
    let mut cache = create_test_cache();
    let key = "h4".to_string();
    assert!(cache.hset_nx(key.clone(), "a".to_string(), "1".to_string()).unwrap());
    assert!(cache.hset_nx(key.clone(), "b".to_string(), "2".to_string()).unwrap());
    assert!(cache.hdel(key.clone(), "a".to_string()).unwrap());
    assert_eq!(cache.hget(key.clone(), Some("a".to_string())).unwrap(), None);
    assert_eq!(cache.hkeys(key.clone()).unwrap(), vec!["b".to_string()]);
    assert!(!cache.hdel("absent".to_string(), "a".to_string()).unwrap());
}

#[test]
fn stored_hash_is_json_text() {
    let mut cache = create_test_cache();
    assert!(cache.hset_nx("j".to_string(), "a".to_string(), "1".to_string()).unwrap());
    assert_eq!(cache.get("j".to_string()).unwrap(), Some("{\"a\":\"1\"}".to_string()));
}

#[test]
fn bits_of_ascii_text_read_back() {
    let mut cache = create_test_cache();
    assert!(cache.set("b".to_string(), "A".to_string(), None).unwrap());
    // 'A' is 0x41: bits 1 and 7 are set.
    assert!(cache.get_bit("b".to_string(), 1).unwrap());
    assert!(cache.get_bit("b".to_string(), 7).unwrap());
    assert!(!cache.get_bit("b".to_string(), 0).unwrap());
    // Setting bit 2 makes 0x61, 'a', which is valid UTF-8.
    assert!(!cache.set_bit("b".to_string(), 2, true).unwrap());
    assert!(cache.get_bit("b".to_string(), 2).unwrap());
    assert_eq!(cache.get("b".to_string()).unwrap(), Some("a".to_string()));
    assert!(cache.set_bit("b".to_string(), 2, false).unwrap());
    assert_eq!(cache.get("b".to_string()).unwrap(), Some("A".to_string()));
    assert!(!cache.get_bit("b".to_string(), 100).unwrap());
}

#[test]
fn set_bit_past_end_pads_with_zero_bytes() {
    let mut cache = create_test_cache();
    assert!(!cache.set_bit("p".to_string(), 9, true).unwrap());
    // Bytes 0x00 0x40: "\0@".
    assert_eq!(cache.get("p".to_string()).unwrap(), Some("\u{0}@".to_string()));
}

#[test]
fn redis_commands_are_built() {
    let c = StringRedisCache::set_command("k", "v", Some(5));
    assert_eq!(c.name, "SETEX");
    assert_eq!(c.args.len(), 3);
    assert!(matches!(&c.args[1], RedisArg::Int(5)));
    let c = StringRedisCache::set_command("k", "v", None);
    assert_eq!(c.name, "SET");
    assert!(matches!(&c.args[0], RedisArg::Text(t) if t == "k"));
    let c = StringRedisCache::set_nx_command("k", &None);
    assert_eq!(c.name, "SETNX");
    assert_eq!(c.args.len(), 1);
}

#[test]
fn redis_replies_are_read() {
    assert!(StringRedisCache::set_succeeded("OK"));
    assert!(!StringRedisCache::set_succeeded("ERR"));
    assert!(StringRedisCache::count_positive(1));
    assert!(!StringRedisCache::count_positive(0));
    assert!(StringRedisCache::count_at_least_one(1));
    assert!(StringRedisCache::set_bit_outcome(Ok(1)));
    assert!(!StringRedisCache::set_bit_outcome(Err(CacheError { message: "down".to_string() })));
    assert!(StringRedisCache::del_outcome(Ok(2)));
    assert!(!StringRedisCache::del_outcome(Ok(0)));
}

#[test]
fn redis_client_builds_from_properties() {
    let props = RedisProperties::default();
    assert!(StringRedisCache::try_new(&props).is_ok());
    let mut none = RedisProperties::default();
    none.nodes = vec![];
    let e = StringRedisCache::try_new(&none).err().unwrap();
    assert_eq!(e.message, "Failed to build redis cluster client");
}

#[test]
fn unbounded_cache_reads_back_what_was_written() {
    let config = MemoryProperties { initial_capacity: None, max_capacity: None, ttl: None, eviction_policy: None };
    let mut cache = StringMemoryCache::new(&config);
    for i in 0..100 {
        assert!(cache.set(format!("k{}", i), format!("v{}", i), None).unwrap());
    }
    for i in 0..100 {
        assert_eq!(cache.get(format!("k{}", i)).unwrap(), Some(format!("v{}", i)));
    }
}

fn unbounded_cache() -> StringMemoryCache {
    StringMemoryCache::new(&MemoryProperties { initial_capacity: None, max_capacity: None, ttl: None, eviction_policy: None })
}

#[test]
fn unbounded_cache_hash_and_bit_commands_read_back() {
    let mut cache = unbounded_cache();
    assert!(cache.hset("h".to_string(), Some(vec![("f".to_string(), "1".to_string())])).unwrap());
    assert_eq!(cache.hget("h".to_string(), Some("f".to_string())).unwrap(), Some("1".to_string()));
    assert!(!cache.hset_nx("h".to_string(), "f".to_string(), "2".to_string()).unwrap());
    assert_eq!(cache.hkeys("h".to_string()).unwrap(), vec!["f".to_string()]);
    assert!(cache.hdel("h".to_string(), "f".to_string()).unwrap());
    assert_eq!(cache.hget_all("h".to_string()).unwrap(), Some(vec![]));
    assert!(!cache.set_bit("b".to_string(), 1, true).unwrap());
    assert!(cache.get_bit("b".to_string(), 1).unwrap());
    assert!(cache.set_nx("n".to_string(), Some("1".to_string())).unwrap());
    assert!(!cache.set_nx("n".to_string(), Some("2".to_string())).unwrap());
    let mut ks = cache.keys("^[hbn]$".to_string()).unwrap();
    ks.sort();
    assert_eq!(ks, vec!["b".to_string(), "h".to_string(), "n".to_string()]);
}
