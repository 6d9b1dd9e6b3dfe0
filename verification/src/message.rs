//! The protocol messages that peers and the relay exchange.

use crate::wire::{
    array, array_text, frame, frame_text, json_string, json_strings, member, member_text, object,
    object_text, quote, quote_all,
};
use std::path::PathBuf;
use vstd::prelude::*;

verus! {

/// `std::path::PathBuf`, carried through and never looked into.
#[verifier::external_type_specification]
#[verifier::external_body]
pub struct ExPathBuf(PathBuf);

/// `Clone::clone` of `std::path::PathBuf`: the copy is the same path.
pub assume_specification[ <PathBuf as Clone>::clone ](path: &PathBuf) -> (copy: PathBuf)
    ensures
        copy == *path,
;

/// One protocol message. Commands travel from a peer to the relay and drive
/// the router; events travel from the relay to a peer. `BroadcastUser` and
/// `PrepareFile` are neither: the relay accepts them and does nothing.
#[derive(Debug, Clone, PartialEq, Eq)]
pub enum WebSocketMessage {
    /// Command: make the sender reachable under the nickname.
    Register { nickname: String },
    /// Command: forget the nickname.
    DisconnectUser(String),
    /// Word of a peer, for everyone. The relay neither routes nor sends it.
    BroadcastUser(String),
    /// Event: the registration is done.
    RegisterSuccess,
    /// Command: name everyone who is registered, but for this nickname.
    GetActiveUsersList(String),
    /// Event: the nicknames that were asked for.
    ActiveUsersList(Vec<String>),
    /// A file on a peer's own disk. The relay neither routes nor sends it.
    PrepareFile(PathBuf),
    /// Command: hand the ticket to whoever holds the recipient's nickname.
    SendFile { recipient: String, ticket: String },
    /// Event: a ticket that another peer has sent.
    ReceiveFile(String),
    /// Event: a frame held no message; the text says what was wrong with it.
    ErrorDeserializingJson(String),
    /// Event: nobody holds the nickname that a ticket was sent to.
    UserNotFound,
}

/// What a message is, with every text as a sequence of characters.
pub enum MessageView {
    Register { nickname: Seq<char> },
    DisconnectUser(Seq<char>),
    BroadcastUser(Seq<char>),
    RegisterSuccess,
    GetActiveUsersList(Seq<char>),
    ActiveUsersList(Seq<Seq<char>>),
    PrepareFile(PathBuf),
    SendFile { recipient: Seq<char>, ticket: Seq<char> },
    ReceiveFile(Seq<char>),
    ErrorDeserializingJson(Seq<char>),
    UserNotFound,
}

impl View for WebSocketMessage {
    type V = MessageView;

    open spec fn view(&self) -> MessageView {
        match *self {
            WebSocketMessage::Register { nickname } => MessageView::Register { nickname: nickname@ },
            WebSocketMessage::DisconnectUser(nickname) => MessageView::DisconnectUser(nickname@),
            WebSocketMessage::BroadcastUser(nickname) => MessageView::BroadcastUser(nickname@),
            WebSocketMessage::RegisterSuccess => MessageView::RegisterSuccess,
            WebSocketMessage::GetActiveUsersList(except) => MessageView::GetActiveUsersList(except@),
            WebSocketMessage::ActiveUsersList(names) => MessageView::ActiveUsersList(
                names.deep_view(),
            ),
            WebSocketMessage::PrepareFile(path) => MessageView::PrepareFile(path),
            WebSocketMessage::SendFile { recipient, ticket } => MessageView::SendFile {
                recipient: recipient@,
                ticket: ticket@,
            },
            WebSocketMessage::ReceiveFile(ticket) => MessageView::ReceiveFile(ticket@),
            WebSocketMessage::ErrorDeserializingJson(description) => {
                MessageView::ErrorDeserializingJson(description@)
            },
            WebSocketMessage::UserNotFound => MessageView::UserNotFound,
        }
    }
}

impl MessageView {
    /// A command: what a peer may send to the relay.
    pub open spec fn is_command(self) -> bool {
        self is Register || self is DisconnectUser || self is GetActiveUsersList
            || self is SendFile
    }

    /// An event that the relay sends on to a peer.
    pub open spec fn is_client_event(self) -> bool {
        self is RegisterSuccess || self is ActiveUsersList || self is ReceiveFile
            || self is ErrorDeserializingJson || self is UserNotFound
    }
}

/// The frame that carries `message` on the wire. The two kinds of message
/// that never travel, `BroadcastUser` and `PrepareFile`, have the empty text.
pub open spec fn wire_text(message: MessageView) -> Seq<char> {
    match message {
        MessageView::Register { nickname } => frame_text(
            "register"@,
            Some(object_text(seq![member_text("nickname"@, json_string(nickname))])),
        ),
        MessageView::DisconnectUser(nickname) => frame_text(
            "disconnect_user"@,
            Some(json_string(nickname)),
        ),
        MessageView::RegisterSuccess => frame_text("register_success"@, None),
        MessageView::GetActiveUsersList(except) => frame_text(
            "get_active_users_list"@,
            Some(json_string(except)),
        ),
        MessageView::ActiveUsersList(names) => frame_text(
            "active_users_list"@,
            Some(array_text(json_strings(names))),
        ),
        MessageView::SendFile { recipient, ticket } => frame_text(
            "send_file"@,
            Some(
                object_text(
                    seq![
                        member_text("recipient"@, json_string(recipient)),
                        member_text("ticket"@, json_string(ticket)),
                    ],
                ),
            ),
        ),
        MessageView::ReceiveFile(ticket) => frame_text("receive_file"@, Some(json_string(ticket))),
        MessageView::ErrorDeserializingJson(description) => frame_text(
            "error_deserializing_json"@,
            Some(json_string(description)),
        ),
        MessageView::UserNotFound => frame_text("user_not_found"@, None),
        MessageView::BroadcastUser(_) => Seq::empty(),
        MessageView::PrepareFile(_) => Seq::empty(),
    }
}

/// A message that travels has a frame that is not empty, so the empty text
/// stands for nothing but a message that never travels.
pub proof fn wire_text_is_empty_for_no_frame(message: MessageView)
    ensures
        wire_text(message).len() == 0 <==> message is BroadcastUser || message is PrepareFile,
{
    reveal_strlit("{\"type\":\"");
    reveal_strlit("\"}");
    reveal_strlit("}");
}

impl WebSocketMessage {
    /// The frame that carries this message on the wire, as JSON text.
    pub fn to_json(&self) -> (text: String)
        ensures
            text@ == wire_text(self@),
    {
        match self {
            WebSocketMessage::Register { nickname } => {
                let value = quote(nickname.as_str());
                let mut members: Vec<String> = Vec::new();
                members.push(member("nickname", value.as_str()));
                proof {
                    assert(members.deep_view() =~= seq![
                        member_text("nickname"@, json_string(nickname@)),
                    ]);
                }
                let payload = object(&members);
                frame("register", Some(payload.as_str()))
            },
            WebSocketMessage::DisconnectUser(nickname) => {
                let payload = quote(nickname.as_str());
                frame("disconnect_user", Some(payload.as_str()))
            },
            WebSocketMessage::RegisterSuccess => frame("register_success", None),
            WebSocketMessage::GetActiveUsersList(except) => {
                let payload = quote(except.as_str());
                frame("get_active_users_list", Some(payload.as_str()))
            },
            WebSocketMessage::ActiveUsersList(names) => {
                let items = quote_all(names);
                let payload = array(&items);
                frame("active_users_list", Some(payload.as_str()))
            },
            WebSocketMessage::SendFile { recipient, ticket } => {
                let to = quote(recipient.as_str());
                let what = quote(ticket.as_str());
                let mut members: Vec<String> = Vec::new();
                members.push(member("recipient", to.as_str()));
                members.push(member("ticket", what.as_str()));
                proof {
                    assert(members.deep_view() =~= seq![
                        member_text("recipient"@, json_string(recipient@)),
                        member_text("ticket"@, json_string(ticket@)),
                    ]);
                }
                let payload = object(&members);
                frame("send_file", Some(payload.as_str()))
            },
            WebSocketMessage::ReceiveFile(ticket) => {
                let payload = quote(ticket.as_str());
                frame("receive_file", Some(payload.as_str()))
            },
            WebSocketMessage::ErrorDeserializingJson(description) => {
                let payload = quote(description.as_str());
                frame("error_deserializing_json", Some(payload.as_str()))
            },
            WebSocketMessage::UserNotFound => frame("user_not_found", None),
            WebSocketMessage::BroadcastUser(_) => String::new(),
            WebSocketMessage::PrepareFile(_) => String::new(),
        }
    }

    /// Whether this message is a command that the router acts on.
    pub fn is_command(&self) -> (yes: bool)
        ensures
            yes == self@.is_command(),
    {
        match self {
            WebSocketMessage::Register { .. } => true,
            WebSocketMessage::DisconnectUser(_) => true,
            WebSocketMessage::GetActiveUsersList(_) => true,
            WebSocketMessage::SendFile { .. } => true,
            _ => false,
        }
    }

    /// Whether this message is an event meant for a peer.
    pub fn is_client_event(&self) -> (yes: bool)
        ensures
            yes == self@.is_client_event(),
    {
        match self {
            WebSocketMessage::RegisterSuccess => true,
            WebSocketMessage::ActiveUsersList(_) => true,
            WebSocketMessage::ReceiveFile(_) => true,
            WebSocketMessage::ErrorDeserializingJson(_) => true,
            WebSocketMessage::UserNotFound => true,
            _ => false,
        }
    }
}

} // verus!
