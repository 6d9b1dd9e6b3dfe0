use rendezvous_relay::message::WebSocketMessage;
use rendezvous_relay::wire::{array, frame, join_with_commas, member, object};
use std::path::PathBuf;

fn texts(items: &[&str]) -> Vec<String> {
    items.iter().map(|item| item.to_string()).collect()
}

#[test]
fn register_on_the_wire() {
    let message = WebSocketMessage::Register { nickname: "alice".to_string() };
    assert_eq!(message.to_json(), r#"{"type":"register","payload":{"nickname":"alice"}}"#);
}

#[test]
fn disconnect_user_on_the_wire() {
    let message = WebSocketMessage::DisconnectUser("alice".to_string());
    assert_eq!(message.to_json(), r#"{"type":"disconnect_user","payload":"alice"}"#);
}

#[test]
fn get_active_users_list_on_the_wire() {
    let message = WebSocketMessage::GetActiveUsersList("alice".to_string());
    assert_eq!(message.to_json(), r#"{"type":"get_active_users_list","payload":"alice"}"#);
}

#[test]
fn send_file_on_the_wire() {
    let message =
        WebSocketMessage::SendFile { recipient: "alice".to_string(), ticket: "T1".to_string() };
    assert_eq!(
        message.to_json(),
        r#"{"type":"send_file","payload":{"recipient":"alice","ticket":"T1"}}"#
    );
}

#[test]
fn register_success_on_the_wire() {
    assert_eq!(WebSocketMessage::RegisterSuccess.to_json(), r#"{"type":"register_success"}"#);
}

#[test]
fn active_users_list_on_the_wire() {
    let message = WebSocketMessage::ActiveUsersList(texts(&["alice", "bob", "carol"]));
    assert_eq!(
        message.to_json(),
        r#"{"type":"active_users_list","payload":["alice","bob","carol"]}"#
    );
    let message = WebSocketMessage::ActiveUsersList(texts(&["alice"]));
    assert_eq!(message.to_json(), r#"{"type":"active_users_list","payload":["alice"]}"#);
    let message = WebSocketMessage::ActiveUsersList(Vec::new());
    assert_eq!(message.to_json(), r#"{"type":"active_users_list","payload":[]}"#);
}

#[test]
fn receive_file_on_the_wire() {
    let message = WebSocketMessage::ReceiveFile("T1".to_string());
    assert_eq!(message.to_json(), r#"{"type":"receive_file","payload":"T1"}"#);
}

#[test]
fn error_deserializing_json_on_the_wire() {
    let message = WebSocketMessage::ErrorDeserializingJson("expected value".to_string());
    assert_eq!(
        message.to_json(),
        r#"{"type":"error_deserializing_json","payload":"expected value"}"#
    );
}

#[test]
fn user_not_found_on_the_wire() {
    assert_eq!(WebSocketMessage::UserNotFound.to_json(), r#"{"type":"user_not_found"}"#);
}

#[test]
fn messages_that_never_travel_have_no_text() {
    assert_eq!(WebSocketMessage::BroadcastUser("alice".to_string()).to_json(), "");
    assert_eq!(WebSocketMessage::PrepareFile(PathBuf::from("/tmp/file")).to_json(), "");
}

#[test]
fn texts_are_escaped_as_json() {
    let message = WebSocketMessage::ReceiveFile("a\"b\\c\nd\te\u{1}".to_string());
    assert_eq!(
        message.to_json(),
        "{\"type\":\"receive_file\",\"payload\":\"a\\\"b\\\\c\\nd\\te\\u0001\"}"
    );
    let message = WebSocketMessage::Register { nickname: "\"".to_string() };
    assert_eq!(message.to_json(), r#"{"type":"register","payload":{"nickname":"\""}}"#);
    let message = WebSocketMessage::ActiveUsersList(texts(&["a,b", "c\"d"]));
    assert_eq!(message.to_json(), r#"{"type":"active_users_list","payload":["a,b","c\"d"]}"#);
}

#[test]
fn texts_beyond_ascii_stay_as_they_are() {
    let message = WebSocketMessage::DisconnectUser("zoë ☂".to_string());
    assert_eq!(message.to_json(), "{\"type\":\"disconnect_user\",\"payload\":\"zoë ☂\"}");
}

#[test]
fn empty_texts_are_empty_json_strings() {
    let message = WebSocketMessage::GetActiveUsersList(String::new());
    assert_eq!(message.to_json(), r#"{"type":"get_active_users_list","payload":""}"#);
}

#[test]
fn frames_read_back_as_json() {
    let tricky = "line\nbreak \"quoted\" back\\slash é";
    let message = WebSocketMessage::SendFile {
        recipient: tricky.to_string(),
        ticket: "T\u{0}1".to_string(),
    };
    let value: serde_json::Value = serde_json::from_str(&message.to_json()).unwrap();
    assert_eq!(value.get("type").and_then(|tag| tag.as_str()), Some("send_file"));
    let payload = value.get("payload").unwrap();
    assert_eq!(payload.get("recipient").and_then(|text| text.as_str()), Some(tricky));
    assert_eq!(payload.get("ticket").and_then(|text| text.as_str()), Some("T\u{0}1"));
    assert_eq!(value.as_object().unwrap().len(), 2);
    assert_eq!(payload.as_object().unwrap().len(), 2);

    let message = WebSocketMessage::ActiveUsersList(texts(&["a", tricky]));
    let value: serde_json::Value = serde_json::from_str(&message.to_json()).unwrap();
    let names = value.get("payload").and_then(|names| names.as_array()).unwrap();
    assert_eq!(names.len(), 2);
    assert_eq!(names[0].as_str(), Some("a"));
    assert_eq!(names[1].as_str(), Some(tricky));

    let value: serde_json::Value =
        serde_json::from_str(&WebSocketMessage::UserNotFound.to_json()).unwrap();
    assert_eq!(value.as_object().unwrap().len(), 1);
    assert_eq!(value.get("type").and_then(|tag| tag.as_str()), Some("user_not_found"));
}

#[test]
fn join_puts_commas_between_items() {
    assert_eq!(join_with_commas(&Vec::new()), "");
    assert_eq!(join_with_commas(&texts(&["1"])), "1");
    assert_eq!(join_with_commas(&texts(&["1", "2", "3"])), "1,2,3");
    assert_eq!(join_with_commas(&texts(&["", ""])), ",");
}

#[test]
fn array_wraps_items_in_brackets() {
    assert_eq!(array(&Vec::new()), "[]");
    assert_eq!(array(&texts(&["\"a\""])), "[\"a\"]");
    assert_eq!(array(&texts(&["1", "true", "null"])), "[1,true,null]");
}

#[test]
fn object_wraps_members_in_braces() {
    assert_eq!(object(&Vec::new()), "{}");
    assert_eq!(object(&vec![member("a", "1")]), "{\"a\":1}");
    assert_eq!(object(&vec![member("a", "1"), member("b", "\"x\"")]), "{\"a\":1,\"b\":\"x\"}");
}

#[test]
fn member_is_name_colon_value() {
    assert_eq!(member("nickname", "\"alice\""), "\"nickname\":\"alice\"");
    assert_eq!(member("", ""), "\"\":");
}

#[test]
fn frame_holds_tag_and_payload() {
    assert_eq!(frame("ping", None), r#"{"type":"ping"}"#);
    assert_eq!(frame("ping", Some("1")), r#"{"type":"ping","payload":1}"#);
    assert_eq!(frame("", Some("")), r#"{"type":"","payload":}"#);
}
