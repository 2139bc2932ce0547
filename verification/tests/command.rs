use miniredis::command::{Reply, Request};
use miniredis::error::MiniRedisError;
use miniredis::kv_store::{KVStore, Keyspace};

fn strings(items: &[&str]) -> Vec<String> {
    items.iter().map(|item| item.to_string()).collect()
}

#[test]
fn from_parts_makes_a_get() {
    assert_eq!(
        Ok(Request::Get { key: "k".to_string() }),
        Request::from_parts("GET", strings(&["k"]))
    );
}

#[test]
fn from_parts_makes_a_set() {
    assert_eq!(
        Ok(Request::Put { key: "k".to_string(), value: "v".to_string() }),
        Request::from_parts("SET", strings(&["k", "v"]))
    );
}

#[test]
fn from_parts_makes_a_del() {
    assert_eq!(
        Ok(Request::Del { key: "k".to_string() }),
        Request::from_parts("DEL", strings(&["k"]))
    );
}

#[test]
fn from_parts_refuses_a_wrong_number_of_arguments() {
    for (command, args) in [
        ("GET", strings(&[])),
        ("GET", strings(&["a", "b"])),
        ("SET", strings(&[])),
        ("SET", strings(&["k"])),
        ("SET", strings(&["k", "v", "extra"])),
        ("DEL", strings(&[])),
        ("DEL", strings(&["a", "b"])),
    ] {
        assert_eq!(
            Err(MiniRedisError::InvalidArguments { arguments: args.clone() }),
            Request::from_parts(command, args)
        );
    }
}

#[test]
fn from_parts_refuses_an_unknown_command() {
    assert_eq!(
        Err(MiniRedisError::InvalidCommand { command: "FOO".to_string() }),
        Request::from_parts("FOO", strings(&["k"]))
    );
}

#[test]
fn from_parts_knows_names_in_upper_case_only() {
    assert_eq!(
        Err(MiniRedisError::InvalidCommand { command: "get".to_string() }),
        Request::from_parts("get", strings(&["k"]))
    );
    assert_eq!(
        Err(MiniRedisError::InvalidCommand { command: "".to_string() }),
        Request::from_parts("", strings(&[]))
    );
}

#[test]
fn reply_text_of_each_reply() {
    assert_eq!("value", Reply::Value("value".to_string()).text());
    assert_eq!("nil", Reply::Nil.text());
    assert_eq!("OK", Reply::Done.text());
}

#[test]
fn keyspace_new_holds_no_key() {
    let keyspace = Keyspace::new();
    assert_eq!(None, keyspace.get("key"));
    assert_eq!(None, keyspace.get(""));
}

#[test]
fn keyspace_set_then_get_gives_the_value() {
    let mut keyspace = Keyspace::new();
    keyspace.set("key", "value");
    assert_eq!(Some("value".to_string()), keyspace.get("key"));
    assert_eq!(None, keyspace.get("other"));
}

#[test]
fn keyspace_set_replaces_the_value() {
    let mut keyspace = Keyspace::new();
    keyspace.set("key", "first");
    keyspace.set("key", "second");
    assert_eq!(Some("second".to_string()), keyspace.get("key"));
}

#[test]
fn keyspace_del_removes_only_its_key() {
    let mut keyspace = Keyspace::new();
    keyspace.set("key", "value");
    keyspace.set("other", "kept");
    keyspace.del("key");
    keyspace.del("absent");
    assert_eq!(None, keyspace.get("key"));
    assert_eq!(Some("kept".to_string()), keyspace.get("other"));
}

#[test]
fn keyspace_execute_answers_each_request() {
    let mut keyspace = Keyspace::new();
    assert_eq!(Reply::Nil, keyspace.execute(Request::Get { key: "k".to_string() }));
    assert_eq!(
        Reply::Done,
        keyspace.execute(Request::Put { key: "k".to_string(), value: "v".to_string() })
    );
    assert_eq!(
        Reply::Value("v".to_string()),
        keyspace.execute(Request::Get { key: "k".to_string() })
    );
    assert_eq!(Some("v".to_string()), keyspace.get("k"));
    assert_eq!(Reply::Done, keyspace.execute(Request::Del { key: "k".to_string() }));
    assert_eq!(Reply::Nil, keyspace.execute(Request::Get { key: "k".to_string() }));
    assert_eq!(Reply::Done, keyspace.execute(Request::Del { key: "k".to_string() }));
}

#[test]
fn keyspace_tells_a_stored_nil_from_no_value() {
    let mut keyspace = Keyspace::new();
    keyspace.set("k", "nil");
    assert_eq!(
        Reply::Value("nil".to_string()),
        keyspace.execute(Request::Get { key: "k".to_string() })
    );
}

#[test]
fn store_execute_answers_each_request() {
    let store = KVStore::new();
    assert_eq!(Ok(Reply::Nil), store.execute(Request::Get { key: "k".to_string() }));
    assert_eq!(
        Ok(Reply::Done),
        store.execute(Request::Put { key: "k".to_string(), value: "v".to_string() })
    );
    assert_eq!(Ok(Some("v".to_string())), store.get("k"));
    assert_eq!(
        Ok(Reply::Value("v".to_string())),
        store.execute(Request::Get { key: "k".to_string() })
    );
    assert_eq!(Ok(Reply::Done), store.execute(Request::Del { key: "k".to_string() }));
    assert_eq!(Ok(None), store.get("k"));
}

#[test]
fn store_keeps_empty_keys_and_values() {
    let store = KVStore::new();
    store.set("", "").unwrap();
    assert_eq!(Some("".to_string()), store.get("").unwrap());
    store.del("").unwrap();
    assert_eq!(None, store.get("").unwrap());
}
