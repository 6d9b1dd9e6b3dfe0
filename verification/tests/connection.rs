use rendezvous_relay::connection;
use rendezvous_relay::connection::{Inbound, MAILBOX_CAPACITY};
use rendezvous_relay::message::WebSocketMessage;
use rendezvous_relay::registry::Registry;
use rendezvous_relay::response::{AppJson, Response};
use rendezvous_relay::router::{Delivery, Dispatch};
use std::path::PathBuf;

#[test]
fn mailbox_holds_a_hundred_messages() {
    assert_eq!(MAILBOX_CAPACITY, 100);
}

#[test]
fn decoded_command_is_routed() {
    let mut registry = Registry::new();
    let outcome = connection::read(
        &mut registry,
        4,
        Inbound::Decoded(WebSocketMessage::Register { nickname: "alice".to_string() }),
    );
    assert_eq!(
        outcome,
        Dispatch { reply: Some(WebSocketMessage::RegisterSuccess), delivery: None }
    );
    assert_eq!(registry.lookup("alice"), Some(4));
    let outcome = connection::read(
        &mut registry,
        5,
        Inbound::Decoded(WebSocketMessage::SendFile {
            recipient: "alice".to_string(),
            ticket: "T1".to_string(),
        }),
    );
    assert_eq!(
        outcome,
        Dispatch {
            reply: None,
            delivery: Some(Delivery {
                mailbox: 4,
                message: WebSocketMessage::ReceiveFile("T1".to_string()),
            }),
        }
    );
}

#[test]
fn undecodable_frame_is_answered_once() {
    let mut registry = Registry::new();
    connection::read(
        &mut registry,
        4,
        Inbound::Decoded(WebSocketMessage::Register { nickname: "alice".to_string() }),
    );
    let outcome =
        connection::read(&mut registry, 4, Inbound::Undecodable("expected value at line 1".to_string()));
    assert_eq!(
        outcome,
        Dispatch {
            reply: Some(WebSocketMessage::ErrorDeserializingJson(
                "expected value at line 1".to_string()
            )),
            delivery: None,
        }
    );
    assert_eq!(registry.lookup("alice"), Some(4));
    assert_eq!(registry.list(""), vec!["alice".to_string()]);
}

#[test]
fn frame_that_is_no_text_is_answered_once() {
    let mut registry = Registry::new();
    let outcome = connection::read(&mut registry, 4, Inbound::NotText);
    assert_eq!(
        outcome,
        Dispatch {
            reply: Some(WebSocketMessage::ErrorDeserializingJson(
                "expected a text frame".to_string()
            )),
            delivery: None,
        }
    );
    assert!(registry.list("").is_empty());
}

#[test]
fn connection_goes_on_after_a_bad_frame() {
    let mut registry = Registry::new();
    connection::read(&mut registry, 4, Inbound::Undecodable("bad".to_string()));
    connection::read(&mut registry, 4, Inbound::NotText);
    let outcome = connection::read(
        &mut registry,
        4,
        Inbound::Decoded(WebSocketMessage::Register { nickname: "alice".to_string() }),
    );
    assert_eq!(
        outcome,
        Dispatch { reply: Some(WebSocketMessage::RegisterSuccess), delivery: None }
    );
    let outcome =
        connection::read(&mut registry, 4, Inbound::Decoded(WebSocketMessage::GetActiveUsersList(String::new())));
    assert_eq!(
        outcome,
        Dispatch {
            reply: Some(WebSocketMessage::ActiveUsersList(vec!["alice".to_string()])),
            delivery: None,
        }
    );
}

#[test]
fn events_go_out_as_frames() {
    assert_eq!(
        connection::write(&WebSocketMessage::RegisterSuccess),
        Some(r#"{"type":"register_success"}"#.to_string())
    );
    assert_eq!(
        connection::write(&WebSocketMessage::ActiveUsersList(vec!["bob".to_string()])),
        Some(r#"{"type":"active_users_list","payload":["bob"]}"#.to_string())
    );
    assert_eq!(
        connection::write(&WebSocketMessage::ReceiveFile("T1".to_string())),
        Some(r#"{"type":"receive_file","payload":"T1"}"#.to_string())
    );
    assert_eq!(
        connection::write(&WebSocketMessage::ErrorDeserializingJson("bad".to_string())),
        Some(r#"{"type":"error_deserializing_json","payload":"bad"}"#.to_string())
    );
    assert_eq!(
        connection::write(&WebSocketMessage::UserNotFound),
        Some(r#"{"type":"user_not_found"}"#.to_string())
    );
}

#[test]
fn other_messages_are_dropped_by_the_writer() {
    assert_eq!(connection::write(&WebSocketMessage::Register { nickname: "alice".to_string() }), None);
    assert_eq!(connection::write(&WebSocketMessage::DisconnectUser("alice".to_string())), None);
    assert_eq!(connection::write(&WebSocketMessage::GetActiveUsersList(String::new())), None);
    assert_eq!(
        connection::write(&WebSocketMessage::SendFile {
            recipient: "alice".to_string(),
            ticket: "T1".to_string()
        }),
        None
    );
    assert_eq!(connection::write(&WebSocketMessage::BroadcastUser("alice".to_string())), None);
    assert_eq!(connection::write(&WebSocketMessage::PrepareFile(PathBuf::from("file"))), None);
}

#[test]
fn commands_and_events_are_told_apart() {
    let commands = vec![
        WebSocketMessage::Register { nickname: "alice".to_string() },
        WebSocketMessage::DisconnectUser("alice".to_string()),
        WebSocketMessage::GetActiveUsersList(String::new()),
        WebSocketMessage::SendFile { recipient: "alice".to_string(), ticket: "T1".to_string() },
    ];
    for command in commands {
        assert!(command.is_command());
        assert!(!command.is_client_event());
    }
    let events = vec![
        WebSocketMessage::RegisterSuccess,
        WebSocketMessage::ActiveUsersList(Vec::new()),
        WebSocketMessage::ReceiveFile("T1".to_string()),
        WebSocketMessage::ErrorDeserializingJson("bad".to_string()),
        WebSocketMessage::UserNotFound,
    ];
    for event in events {
        assert!(!event.is_command());
        assert!(event.is_client_event());
    }
    let neither = vec![
        WebSocketMessage::BroadcastUser("alice".to_string()),
        WebSocketMessage::PrepareFile(PathBuf::from("file")),
    ];
    for message in neither {
        assert!(!message.is_command());
        assert!(!message.is_client_event());
    }
}

#[test]
fn plain_answers_hold_their_values() {
    let answer = Response { message: "ok".to_string() };
    assert_eq!(answer.message, "ok");
    let body = AppJson(answer);
    assert_eq!(body.0, Response { message: "ok".to_string() });
    assert_eq!(AppJson(7u8), AppJson(7u8));
}

#[test]
fn copy_of_a_message_is_the_same_message() {
    let messages = vec![
        WebSocketMessage::PrepareFile(PathBuf::from("/tmp/some file.bin")),
        WebSocketMessage::SendFile { recipient: "alice".to_string(), ticket: "T1".to_string() },
        WebSocketMessage::ActiveUsersList(vec!["alice".to_string(), "bob".to_string()]),
        WebSocketMessage::UserNotFound,
    ];
    for message in messages {
        assert_eq!(message.clone(), message);
    }
    assert_ne!(
        WebSocketMessage::PrepareFile(PathBuf::from("a")).clone(),
        WebSocketMessage::PrepareFile(PathBuf::from("b"))
    );
}
