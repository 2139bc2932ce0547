use miniredis::kv_store::KVStore;

#[test]
fn new_creates_empty_store() {
    let store = KVStore::new();
    assert_eq!(None, store.get("key").unwrap());
}

#[test]
fn get_returns_value_if_set() {
    let store = KVStore::new();
    store.set("key", "value").unwrap();
    assert_eq!(Some("value".to_string()), store.get("key").unwrap());
}

#[test]
fn get_returns_none_if_not_set() {
    let store = KVStore::new();
    assert_eq!(None, store.get("key").unwrap());
}

#[test]
fn get_returns_none_if_not_set_and_other_key_is_set() {
    let store = KVStore::new();
    store.set("key", "value").unwrap();
    assert_eq!(None, store.get("other_key").unwrap());
}

#[test]
fn get_returns_value_if_set_and_other_key_is_set() {
    let store = KVStore::new();
    store.set("key", "value").unwrap();
    store.set("other_key", "other_value").unwrap();
    assert_eq!(Some("value".to_string()), store.get("key").unwrap());
}

#[test]
fn get_returns_none_if_deleted() {
    let store = KVStore::new();
    store.set("key", "value").unwrap();
    store.del("key").unwrap();
    assert_eq!(None, store.get("key").unwrap());
}

#[test]
fn set_sets_value() {
    let store = KVStore::new();
    store.set("key", "value").unwrap();
    assert_eq!(Some("value".to_string()), store.get("key").unwrap());
}

#[test]
fn delete_deletes_value() {
    let store = KVStore::new();
    store.set("key", "value").unwrap();
    store.del("key").unwrap();
    assert_eq!(None, store.get("key").unwrap());
}

#[test]
fn delete_does_nothing_if_key_not_set() {
    let store = KVStore::new();
    store.del("key").unwrap();
    assert_eq!(None, store.get("key").unwrap());
}

#[test]
fn delete_does_nothing_if_key_not_set_and_other_key_is_set() {
    let store = KVStore::new();
    store.set("other_key", "other_value").unwrap();
    store.del("key").unwrap();
    assert_eq!(None, store.get("key").unwrap());
}
