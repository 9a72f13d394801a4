use kv_server::command::{Command, Parsed, UnsupportedCommand};
use kv_server::message::Message;
use std::time::Duration;

fn bulk(text: &str) -> Message {
    Message::Bulk(text.as_bytes().to_vec())
}

fn request(parts: &[&str]) -> Message {
    Message::Array(parts.iter().map(|part| bulk(part)).collect())
}

fn unsupported(message: Message) -> Result<Command, UnsupportedCommand> {
    Err(UnsupportedCommand { message })
}

#[test]
fn get_with_one_key_is_decoded() {
    assert_eq!(
        Command::from_message(request(&["GET", "hello"])),
        Ok(Command::Get { key: "hello".to_string() })
    );
}

#[test]
fn set_with_key_and_value_is_decoded() {
    assert_eq!(
        Command::from_message(request(&["SET", "hello", "world"])),
        Ok(Command::Put { key: "hello".to_string(), value: b"world".to_vec() })
    );
}

#[test]
fn verbs_are_case_insensitive() {
    for verb in ["get", "Get", "gEt", "GET"] {
        assert_eq!(
            Command::from_message(request(&[verb, "k"])),
            Ok(Command::Get { key: "k".to_string() })
        );
    }
    for verb in ["set", "Set", "seT", "SET"] {
        assert_eq!(
            Command::from_message(request(&[verb, "k", "v"])),
            Ok(Command::Put { key: "k".to_string(), value: b"v".to_vec() })
        );
    }
}

#[test]
fn keys_and_values_keep_their_case() {
    assert_eq!(
        Command::from_message(request(&["set", "KeY", "VaLuE"])),
        Ok(Command::Put { key: "KeY".to_string(), value: b"VaLuE".to_vec() })
    );
}

#[test]
fn simple_texts_serve_as_verb_and_arguments() {
    let message = Message::Array(vec![
        Message::Simple("SET".to_string()),
        Message::Simple("k".to_string()),
        Message::Simple("v".to_string()),
    ]);
    assert_eq!(
        Command::from_message(message),
        Ok(Command::Put { key: "k".to_string(), value: b"v".to_vec() })
    );
}

#[test]
fn set_value_may_be_any_bytes() {
    let value = vec![0, 159, 146, 150, 255];
    let message = Message::Array(vec![bulk("SET"), bulk("k"), Message::Bulk(value.clone())]);
    assert_eq!(
        Command::from_message(message),
        Ok(Command::Put { key: "k".to_string(), value })
    );
}

#[test]
fn unknown_verb_is_unsupported() {
    assert_eq!(
        Command::from_message(request(&["DELETE", "hello"])),
        unsupported(request(&["DELETE", "hello"]))
    );
    assert_eq!(Command::from_message(request(&["PING"])), unsupported(request(&["PING"])));
}

#[test]
fn other_commands_of_the_parser_are_unsupported() {
    assert_eq!(
        Command::from_message(request(&["PUBLISH", "channel", "news"])),
        unsupported(request(&["PUBLISH", "channel", "news"]))
    );
    assert_eq!(
        Command::from_message(request(&["SUBSCRIBE", "channel"])),
        unsupported(request(&["SUBSCRIBE", "channel"]))
    );
    assert_eq!(
        Command::from_message(request(&["UNSUBSCRIBE", "channel"])),
        unsupported(request(&["UNSUBSCRIBE", "channel"]))
    );
}

#[test]
fn get_with_wrong_argument_count_is_unsupported() {
    assert_eq!(Command::from_message(request(&["GET"])), unsupported(request(&["GET"])));
    assert_eq!(
        Command::from_message(request(&["GET", "a", "b"])),
        unsupported(request(&["GET", "a", "b"]))
    );
}

#[test]
fn set_with_wrong_argument_count_is_unsupported() {
    assert_eq!(Command::from_message(request(&["SET"])), unsupported(request(&["SET"])));
    assert_eq!(
        Command::from_message(request(&["SET", "k"])),
        unsupported(request(&["SET", "k"]))
    );
    assert_eq!(
        Command::from_message(request(&["SET", "k", "v", "extra"])),
        unsupported(request(&["SET", "k", "v", "extra"]))
    );
}

#[test]
fn set_with_expiry_option_is_unsupported() {
    assert_eq!(
        Command::from_message(request(&["SET", "k", "v", "EX", "10"])),
        unsupported(request(&["SET", "k", "v", "EX", "10"]))
    );
    assert_eq!(
        Command::from_message(request(&["SET", "k", "v", "px", "1500"])),
        unsupported(request(&["SET", "k", "v", "px", "1500"]))
    );
}

#[test]
fn message_that_is_no_array_is_unsupported() {
    assert_eq!(Command::from_message(bulk("GET")), unsupported(bulk("GET")));
    assert_eq!(Command::from_message(Message::Null), unsupported(Message::Null));
    assert_eq!(Command::from_message(Message::Integer(7)), unsupported(Message::Integer(7)));
    assert_eq!(
        Command::from_message(Message::Simple("GET k".to_string())),
        unsupported(Message::Simple("GET k".to_string()))
    );
    assert_eq!(
        Command::from_message(Message::Error("GET".to_string())),
        unsupported(Message::Error("GET".to_string()))
    );
}

#[test]
fn empty_array_is_unsupported() {
    assert_eq!(
        Command::from_message(Message::Array(Vec::new())),
        unsupported(Message::Array(Vec::new()))
    );
}

#[test]
fn verb_or_key_that_is_no_text_is_unsupported() {
    let numbered = Message::Array(vec![Message::Integer(1), bulk("k")]);
    assert!(Command::from_message(numbered).is_err());
    let nested = Message::Array(vec![bulk("GET"), Message::Array(vec![bulk("k")])]);
    assert!(Command::from_message(nested).is_err());
    let null_key = Message::Array(vec![bulk("GET"), Message::Null]);
    assert!(Command::from_message(null_key).is_err());
    let invalid_text = Message::Array(vec![bulk("GET"), Message::Bulk(vec![0xff, 0xfe])]);
    assert!(Command::from_message(invalid_text).is_err());
}

#[test]
fn unsupported_command_carries_the_offending_message() {
    let offending = Message::Array(vec![
        bulk("DELETE"),
        Message::Integer(3),
        Message::Array(vec![Message::Null, Message::Error("e".to_string())]),
    ]);
    let expected = Message::Array(vec![
        bulk("DELETE"),
        Message::Integer(3),
        Message::Array(vec![Message::Null, Message::Error("e".to_string())]),
    ]);
    match Command::from_message(offending) {
        Err(unsupported) => assert_eq!(unsupported.message, expected),
        Ok(command) => panic!("decoded as {:?}", command),
    }
}

#[test]
fn parsed_get_is_supported() {
    assert_eq!(
        Command::from_parsed(Parsed::Get { key: "k".to_string() }, Message::Null),
        Ok(Command::Get { key: "k".to_string() })
    );
}

#[test]
fn parsed_set_without_expiry_is_supported() {
    let parsed = Parsed::Put { key: "k".to_string(), value: vec![1, 2], expire: None };
    assert_eq!(
        Command::from_parsed(parsed, Message::Null),
        Ok(Command::Put { key: "k".to_string(), value: vec![1, 2] })
    );
}

#[test]
fn parsed_set_with_expiry_is_unsupported() {
    let parsed = Parsed::Put {
        key: "k".to_string(),
        value: vec![1, 2],
        expire: Some(Duration::from_secs(10)),
    };
    assert_eq!(
        Command::from_parsed(parsed, request(&["SET", "k", "v", "EX", "10"])),
        unsupported(request(&["SET", "k", "v", "EX", "10"]))
    );
}

#[test]
fn parsed_requests_of_other_kinds_are_unsupported() {
    for parsed in [
        Parsed::Publish,
        Parsed::Subscribe,
        Parsed::Unsubscribe,
        Parsed::Unknown,
        Parsed::Malformed,
    ] {
        assert_eq!(Command::from_parsed(parsed, bulk("x")), unsupported(bulk("x")));
    }
}
