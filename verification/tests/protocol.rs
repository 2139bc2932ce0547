use miniredis::error::MiniRedisError;
use miniredis::kv_store::KVStore;
use miniredis::server::{Action, Event, ListenerAction, ListenerEvent, Server};
use std::sync::Arc;

/// Sends one line on a connection to `store` and gives back the line that
/// answers it, without its line feed.
fn send_command(store: &Arc<KVStore>, command: &str) -> String {
    match Server::handle_event(Event::Line(format!("{}\n", command)), store) {
        Action::Write(bytes) => {
            let mut response = String::from_utf8(bytes).unwrap();
            assert!(response.ends_with('\n'));
            response.pop();
            assert!(!response.contains('\n'));
            response
        }
        other => panic!("no answer: {:?}", other),
    }
}

#[test]
fn get_of_a_key_that_was_never_written_gives_nil() {
    let store = Arc::new(KVStore::new());
    assert_eq!("nil", send_command(&store, "GET nonexistent_key"));
    send_command(&store, "SET other_key value");
    send_command(&store, "DEL third_key");
    assert_eq!("nil", send_command(&store, "GET nonexistent_key"));
}

#[test]
fn set_then_get_gives_the_value() {
    let store = Arc::new(KVStore::new());
    assert_eq!("OK", send_command(&store, "SET my_key my_value"));
    assert_eq!("my_value", send_command(&store, "GET my_key"));
}

#[test]
fn the_last_set_wins() {
    let store = Arc::new(KVStore::new());
    assert_eq!("OK", send_command(&store, "SET overwrite_key initial_value"));
    assert_eq!("OK", send_command(&store, "SET overwrite_key new_value"));
    assert_eq!("new_value", send_command(&store, "GET overwrite_key"));
}

#[test]
fn del_gives_ok_whether_or_not_the_key_was_there() {
    let store = Arc::new(KVStore::new());
    assert_eq!("OK", send_command(&store, "DEL non_existing_key"));
    send_command(&store, "SET delete_me some_value");
    assert_eq!("some_value", send_command(&store, "GET delete_me"));
    assert_eq!("OK", send_command(&store, "DEL delete_me"));
    assert_eq!("nil", send_command(&store, "GET delete_me"));
}

#[test]
fn get_and_del_can_be_repeated() {
    let store = Arc::new(KVStore::new());
    send_command(&store, "SET kept value");
    send_command(&store, "SET dropped value");
    for _ in 0..5 {
        assert_eq!("value", send_command(&store, "GET kept"));
        assert_eq!("OK", send_command(&store, "DEL dropped"));
        assert_eq!("nil", send_command(&store, "GET dropped"));
        assert_eq!("nil", send_command(&store, "GET absent"));
    }
    assert_eq!(Some("value".to_string()), store.get("kept").unwrap());
    assert_eq!(None, store.get("dropped").unwrap());
    assert_eq!(None, store.get("absent").unwrap());
}

#[test]
fn command_names_are_read_without_regard_to_case() {
    let store = Arc::new(KVStore::new());
    assert_eq!("OK", send_command(&store, "set case_key case_value"));
    assert_eq!("case_value", send_command(&store, "get case_key"));
    assert_eq!("case_value", send_command(&store, "GET case_key"));
    assert_eq!("case_value", send_command(&store, "GeT case_key"));
    assert_eq!("OK", send_command(&store, "del case_key"));
    assert_eq!("nil", send_command(&store, "gEt case_key"));
}

#[test]
fn keys_and_values_keep_their_case() {
    let store = Arc::new(KVStore::new());
    assert_eq!("OK", send_command(&store, "SET Key Value"));
    assert_eq!("Value", send_command(&store, "GET Key"));
    assert_eq!("nil", send_command(&store, "GET key"));
}

#[test]
fn a_wrong_number_of_arguments_is_answered_with_an_error() {
    let store = Arc::new(KVStore::new());
    assert_eq!(
        "Invalid arguments: []. Run 'miniredis --help' for more information.",
        send_command(&store, "GET")
    );
    assert_eq!(
        "Invalid arguments: [\"a\", \"b\"]. Run 'miniredis --help' for more information.",
        send_command(&store, "GET a b")
    );
    assert_eq!(
        "Invalid arguments: [\"k\"]. Run 'miniredis --help' for more information.",
        send_command(&store, "SET k")
    );
    let listed = "[\"k\", \"v\", \"extra\"]";
    assert_eq!(
        format!("Invalid arguments: {}. Run 'miniredis --help' for more information.", listed),
        send_command(&store, "SET k v extra")
    );
    assert!(send_command(&store, "SET").contains("Invalid arguments"));
    assert!(send_command(&store, "DEL").contains("Invalid arguments"));
    assert!(send_command(&store, "DEL key1 key2").contains("Invalid arguments"));
    // None of them changed the store.
    assert_eq!("nil", send_command(&store, "GET k"));
    assert_eq!("nil", send_command(&store, "GET a"));
}

#[test]
fn an_unknown_command_is_answered_with_an_error_that_names_it() {
    let store = Arc::new(KVStore::new());
    assert_eq!(
        "Invalid command: FOO. Run 'miniredis --help' for more information.",
        send_command(&store, "FOO")
    );
    assert_eq!(
        "Invalid command: INVALID_COMMAND. Run 'miniredis --help' for more information.",
        send_command(&store, "invalid_command some_arg")
    );
}

#[test]
fn the_connection_goes_on_after_an_error() {
    let store = Arc::new(KVStore::new());
    assert!(send_command(&store, "FOO").contains("Invalid command"));
    assert!(send_command(&store, "GET").contains("Invalid arguments"));
    assert_eq!("OK", send_command(&store, "SET k v"));
    assert_eq!("v", send_command(&store, "GET k"));
}

#[test]
fn blank_lines_are_passed_over() {
    let store = Arc::new(KVStore::new());
    for line in ["", "\n", "   \n", "\t\r\n", " \u{a0}\u{3000} "] {
        assert_eq!(Action::Read, Server::handle_event(Event::Line(line.to_string()), &store));
    }
    // The connection is still served.
    assert_eq!("OK", send_command(&store, "SET k v"));
}

#[test]
fn extra_white_space_between_words_does_not_matter() {
    let store = Arc::new(KVStore::new());
    assert_eq!("OK", send_command(&store, "  SET   space_key   space_value  "));
    assert_eq!("space_value", send_command(&store, "  GET   space_key  "));
}

#[test]
fn a_line_without_line_feed_is_answered_too() {
    let store = Arc::new(KVStore::new());
    assert_eq!(
        Action::Write(b"nil\n".to_vec()),
        Server::handle_event(Event::Line("GET k".to_string()), &store)
    );
}

#[test]
fn the_end_of_the_stream_closes_the_connection_without_error() {
    let store = Arc::new(KVStore::new());
    assert_eq!(Action::Close(Ok(())), Server::handle_event(Event::End, &store));
}

#[test]
fn a_failed_read_closes_the_connection() {
    let store = Arc::new(KVStore::new());
    assert_eq!(
        Action::Close(Err(MiniRedisError::StreamNotReadable)),
        Server::handle_event(Event::ReadFailed, &store)
    );
}

#[test]
fn a_failed_write_closes_the_connection() {
    let store = Arc::new(KVStore::new());
    assert_eq!(
        Action::Close(Err(MiniRedisError::StreamNotWritable)),
        Server::handle_event(Event::WriteFailed, &store)
    );
}

#[test]
fn a_stream_that_cannot_be_used_closes_the_connection() {
    let store = Arc::new(KVStore::new());
    assert_eq!(
        Action::Close(Err(MiniRedisError::StreamClosed)),
        Server::handle_event(Event::Unusable, &store)
    );
}

#[test]
fn a_closed_connection_leaves_the_store_to_the_others() {
    let store = Arc::new(KVStore::new());
    assert_eq!("OK", send_command(&store, "SET k v"));
    Server::handle_event(Event::WriteFailed, &store);
    Server::handle_event(Event::ReadFailed, &store);
    Server::handle_event(Event::End, &store);
    assert_eq!("v", send_command(&store, "GET k"));
}

#[test]
fn the_listener_stops_when_the_address_cannot_be_bound() {
    let server = Server::new("127.0.0.1:0");
    assert_eq!(
        ListenerAction::Stop(MiniRedisError::AddressNotBound),
        server.handle_listener_event(ListenerEvent::BindFailed)
    );
}

#[test]
fn the_listener_serves_a_client_that_connected() {
    let server = Server::new("127.0.0.1:0");
    assert_eq!(ListenerAction::Serve, server.handle_listener_event(ListenerEvent::Accepted));
}

#[test]
fn the_listener_goes_on_after_a_connection_that_it_could_not_accept() {
    let server = Server::new("127.0.0.1:6379");
    assert_eq!(
        ListenerAction::Report(MiniRedisError::StreamNotConnected {
            address: "127.0.0.1:6379".to_string()
        }),
        server.handle_listener_event(ListenerEvent::AcceptFailed)
    );
    assert_eq!(ListenerAction::Serve, server.handle_listener_event(ListenerEvent::Accepted));
}

#[test]
fn response_is_the_answer_or_the_message() {
    assert_eq!("value", Server::response(Ok("value".to_string())));
    assert_eq!(
        "Could not access the key value store as it is locked.",
        Server::response(Err(MiniRedisError::StoreLocked))
    );
}

#[test]
fn servers_have_stores_of_their_own() {
    let first = Server::new("127.0.0.1:0");
    let second = Server::new("127.0.0.1:0");
    first.store.set("key", "value").unwrap();
    assert_eq!(None, second.store.get("key").unwrap());
}
