//! The router: what each command does to the registry, what is answered to
//! its sender and what is delivered to another peer.

use crate::message::{MessageView, WebSocketMessage};
use crate::registry::{is_roster, MailboxId, Registry};
use vstd::prelude::*;

verus! {

/// A message on its way to the mailbox of another peer.
#[derive(Debug, PartialEq, Eq)]
pub struct Delivery {
    pub mailbox: MailboxId,
    pub message: WebSocketMessage,
}

/// What the relay owes after one inbound frame: at most one reply to the
/// sender's own mailbox and at most one delivery elsewhere.
#[derive(Debug, PartialEq, Eq)]
pub struct Dispatch {
    pub reply: Option<WebSocketMessage>,
    pub delivery: Option<Delivery>,
}

/// A `Dispatch` with its messages as views.
pub struct DispatchView {
    pub reply: Option<MessageView>,
    pub delivery: Option<(MailboxId, MessageView)>,
}

impl View for Dispatch {
    type V = DispatchView;

    open spec fn view(&self) -> DispatchView {
        DispatchView {
            reply: match self.reply {
                Some(message) => Some(message@),
                None => None,
            },
            delivery: match self.delivery {
                Some(delivery) => Some((delivery.mailbox, delivery.message@)),
                None => None,
            },
        }
    }
}

/// The registry after `command` has come from the peer whose mailbox is
/// `sender`.
pub open spec fn entries_after(
    entries: Map<Seq<char>, MailboxId>,
    sender: MailboxId,
    command: MessageView,
) -> Map<Seq<char>, MailboxId> {
    match command {
        MessageView::Register { nickname } => entries.insert(nickname, sender),
        MessageView::DisconnectUser(nickname) => entries.remove(nickname),
        _ => entries,
    }
}

/// What `command` has delivered to another peer: a ticket goes to the mailbox
/// that is registered under the recipient's nickname, and nothing else goes
/// anywhere.
pub open spec fn delivery_for(
    entries: Map<Seq<char>, MailboxId>,
    command: MessageView,
) -> Option<(MailboxId, MessageView)> {
    match command {
        MessageView::SendFile { recipient, ticket } => if entries.dom().contains(recipient) {
            Some((entries[recipient], MessageView::ReceiveFile(ticket)))
        } else {
            None
        },
        _ => None,
    }
}

/// Whether `reply` is what the sender of `command` is owed. The order of the
/// names in a listing is left open; everything else is fixed.
pub open spec fn is_reply_to(
    entries: Map<Seq<char>, MailboxId>,
    command: MessageView,
    reply: Option<MessageView>,
) -> bool {
    match command {
        MessageView::Register { .. } => reply == Some(MessageView::RegisterSuccess),
        MessageView::GetActiveUsersList(except) => {
            &&& reply matches Some(MessageView::ActiveUsersList(names))
            &&& is_roster(entries, except, names)
        },
        MessageView::SendFile { recipient, .. } => if entries.dom().contains(recipient) {
            reply is None
        } else {
            reply == Some(MessageView::UserNotFound)
        },
        _ => reply is None,
    }
}

/// Whether routing `command` from `sender` leads from the registry `before`
/// to the registry `after` with `outcome`.
pub open spec fn routed(
    before: Map<Seq<char>, MailboxId>,
    sender: MailboxId,
    command: MessageView,
    after: Map<Seq<char>, MailboxId>,
    outcome: DispatchView,
) -> bool {
    &&& after == entries_after(before, sender, command)
    &&& outcome.delivery == delivery_for(before, command)
    &&& is_reply_to(before, command, outcome.reply)
}

/// Routes one message that came from the peer whose mailbox is `sender`.
/// Commands change the registry and are answered as the protocol says;
/// an event that comes inbound is ignored.
pub fn route(
    registry: &mut Registry,
    sender: MailboxId,
    command: WebSocketMessage,
) -> (outcome: Dispatch)
    ensures
        routed(old(registry)@, sender, command@, final(registry)@, outcome@),
{
    match command {
        WebSocketMessage::Register { nickname } => {
            registry.register(nickname, sender);
            Dispatch { reply: Some(WebSocketMessage::RegisterSuccess), delivery: None }
        },
        WebSocketMessage::DisconnectUser(nickname) => {
            registry.unregister(nickname.as_str());
            Dispatch { reply: None, delivery: None }
        },
        WebSocketMessage::GetActiveUsersList(except) => {
            let names = registry.list(except.as_str());
            Dispatch { reply: Some(WebSocketMessage::ActiveUsersList(names)), delivery: None }
        },
        WebSocketMessage::SendFile { recipient, ticket } => {
            match registry.lookup(recipient.as_str()) {
                Some(mailbox) => Dispatch {
                    reply: None,
                    delivery: Some(
                        Delivery { mailbox, message: WebSocketMessage::ReceiveFile(ticket) },
                    ),
                },
                None => Dispatch { reply: Some(WebSocketMessage::UserNotFound), delivery: None },
            }
        },
        _ => Dispatch { reply: None, delivery: None },
    }
}

} // verus!
