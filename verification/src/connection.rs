//! The two halves of a connection. The reading half takes the frames that a
//! peer sends, one by one, and says what the relay owes for each. The writing
//! half takes the messages of the connection's mailbox, one by one, and says
//! what goes out to the peer.

use crate::message::{wire_text, MessageView, WebSocketMessage};
use crate::registry::{MailboxId, Registry};
use crate::router::{route, routed, Dispatch, DispatchView};
use vstd::prelude::*;

verus! {

/// How many messages a mailbox holds before whoever fills it has to wait.
pub const MAILBOX_CAPACITY: usize = 100;

/// One frame as the reading half sees it, after the codec has had it.
#[derive(Debug, PartialEq, Eq)]
pub enum Inbound {
    /// A text frame that holds a message.
    Decoded(WebSocketMessage),
    /// A text frame that holds no message, with what the codec says of it.
    Undecodable(String),
    /// A frame that is no text.
    NotText,
}

/// An `Inbound` with its texts as views.
pub enum InboundView {
    Decoded(MessageView),
    Undecodable(Seq<char>),
    NotText,
}

impl View for Inbound {
    type V = InboundView;

    open spec fn view(&self) -> InboundView {
        match *self {
            Inbound::Decoded(message) => InboundView::Decoded(message@),
            Inbound::Undecodable(description) => InboundView::Undecodable(description@),
            Inbound::NotText => InboundView::NotText,
        }
    }
}

/// What a peer is told of a frame that is no text.
pub open spec fn not_text() -> Seq<char> {
    "expected a text frame"@
}

/// The outcome of a frame that the relay cannot read: one reply that says
/// so, and nothing for anybody else.
pub open spec fn refusal(description: Seq<char>) -> DispatchView {
    DispatchView {
        reply: Some(MessageView::ErrorDeserializingJson(description)),
        delivery: None,
    }
}

/// Whether reading `frame` from the peer whose mailbox is `sender` leads from
/// the registry `before` to the registry `after` with `outcome`.
pub open spec fn received(
    before: Map<Seq<char>, MailboxId>,
    sender: MailboxId,
    frame: InboundView,
    after: Map<Seq<char>, MailboxId>,
    outcome: DispatchView,
) -> bool {
    match frame {
        InboundView::Decoded(message) => routed(before, sender, message, after, outcome),
        InboundView::Undecodable(description) => after == before && outcome == refusal(
            description,
        ),
        InboundView::NotText => after == before && outcome == refusal(not_text()),
    }
}

/// One step of the reading half: a message is routed, and a frame that
/// holds none is answered with exactly one `ErrorDeserializingJson`. The
/// connection goes on either way.
pub fn read(registry: &mut Registry, sender: MailboxId, frame: Inbound) -> (outcome: Dispatch)
    ensures
        received(old(registry)@, sender, frame@, final(registry)@, outcome@),
{
    match frame {
        Inbound::Decoded(message) => route(registry, sender, message),
        Inbound::Undecodable(description) => Dispatch {
            reply: Some(WebSocketMessage::ErrorDeserializingJson(description)),
            delivery: None,
        },
        Inbound::NotText => Dispatch {
            reply: Some(
                WebSocketMessage::ErrorDeserializingJson("expected a text frame".to_owned()),
            ),
            delivery: None,
        },
    }
}

/// One step of the writing half: an event that is meant for a peer goes out
/// as its frame, and any other message is dropped without a word.
pub fn write(message: &WebSocketMessage) -> (frame: Option<String>)
    ensures
        frame is Some == message@.is_client_event(),
        frame matches Some(text) ==> text@ == wire_text(message@),
{
    if message.is_client_event() {
        Some(message.to_json())
    } else {
        None
    }
}

} // verus!
