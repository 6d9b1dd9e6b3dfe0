//! What holds of the relay over several steps, whatever the registry held
//! before and whoever takes part.

use crate::connection::{received, InboundView};
use crate::message::MessageView;
use crate::registry::{without_mailbox, MailboxId};
use crate::router::{delivery_for, routed, DispatchView};
use vstd::prelude::*;

verus! {

/// The nickname that no peer can be listed under while a listing excludes
/// nobody: the empty one.
pub open spec fn nobody_excluded() -> Seq<char> {
    Seq::empty()
}

/// When two peers have registered under different nicknames, neither of them
/// empty, a listing that excludes nobody names both.
pub proof fn both_registered_are_listed(
    start: Map<Seq<char>, MailboxId>,
    first: MailboxId,
    second: MailboxId,
    asker: MailboxId,
    a: Seq<char>,
    b: Seq<char>,
    one: Map<Seq<char>, MailboxId>,
    two: Map<Seq<char>, MailboxId>,
    end: Map<Seq<char>, MailboxId>,
    registered_a: DispatchView,
    registered_b: DispatchView,
    listed: DispatchView,
)
    requires
        a != b,
        a != nobody_excluded(),
        b != nobody_excluded(),
        routed(start, first, MessageView::Register { nickname: a }, one, registered_a),
        routed(one, second, MessageView::Register { nickname: b }, two, registered_b),
        routed(two, asker, MessageView::GetActiveUsersList(nobody_excluded()), end, listed),
    ensures
        listed.reply matches Some(MessageView::ActiveUsersList(names)) && names.contains(a)
            && names.contains(b),
        listed.delivery is None,
{
    assert(two.dom().contains(a));
    assert(two.dom().contains(b));
}

/// When two peers have registered under different nicknames, a listing that
/// excludes the first names the second and not the first.
pub proof fn excluded_is_not_listed(
    start: Map<Seq<char>, MailboxId>,
    first: MailboxId,
    second: MailboxId,
    asker: MailboxId,
    a: Seq<char>,
    b: Seq<char>,
    one: Map<Seq<char>, MailboxId>,
    two: Map<Seq<char>, MailboxId>,
    end: Map<Seq<char>, MailboxId>,
    registered_a: DispatchView,
    registered_b: DispatchView,
    listed: DispatchView,
)
    requires
        a != b,
        routed(start, first, MessageView::Register { nickname: a }, one, registered_a),
        routed(one, second, MessageView::Register { nickname: b }, two, registered_b),
        routed(two, asker, MessageView::GetActiveUsersList(a), end, listed),
    ensures
        listed.reply matches Some(MessageView::ActiveUsersList(names)) && names.contains(b)
            && !names.contains(a),
{
    assert(two.dom().contains(b));
}

/// When a nickname is registered a second time, from another connection, a
/// ticket for that nickname goes to the mailbox of the second connection and
/// nowhere else, and its sender gets no reply.
pub proof fn latest_registration_is_reached(
    start: Map<Seq<char>, MailboxId>,
    first: MailboxId,
    second: MailboxId,
    sender: MailboxId,
    nickname: Seq<char>,
    ticket: Seq<char>,
    one: Map<Seq<char>, MailboxId>,
    two: Map<Seq<char>, MailboxId>,
    end: Map<Seq<char>, MailboxId>,
    registered_first: DispatchView,
    registered_second: DispatchView,
    sent: DispatchView,
)
    requires
        routed(start, first, MessageView::Register { nickname }, one, registered_first),
        routed(one, second, MessageView::Register { nickname }, two, registered_second),
        routed(two, sender, MessageView::SendFile { recipient: nickname, ticket }, end, sent),
    ensures
        two.dom().contains(nickname) && two[nickname] == second,
        sent.delivery == Some((second, MessageView::ReceiveFile(ticket))),
        sent.reply is None,
{
}

/// A ticket for a nickname that is registered is delivered once, to the
/// mailbox under that nickname, as it was sent; the sender gets no reply and
/// the registry stays as it was.
pub proof fn ticket_reaches_registered_recipient(
    before: Map<Seq<char>, MailboxId>,
    sender: MailboxId,
    recipient: Seq<char>,
    ticket: Seq<char>,
    after: Map<Seq<char>, MailboxId>,
    sent: DispatchView,
)
    requires
        before.dom().contains(recipient),
        routed(before, sender, MessageView::SendFile { recipient, ticket }, after, sent),
    ensures
        sent.delivery == Some((before[recipient], MessageView::ReceiveFile(ticket))),
        sent.reply is None,
        after == before,
{
}

/// A ticket for a nickname that nobody holds is delivered to nobody; its
/// sender gets `UserNotFound` and the registry stays as it was.
pub proof fn ticket_for_unknown_recipient_is_refused(
    before: Map<Seq<char>, MailboxId>,
    sender: MailboxId,
    recipient: Seq<char>,
    ticket: Seq<char>,
    after: Map<Seq<char>, MailboxId>,
    sent: DispatchView,
)
    requires
        !before.dom().contains(recipient),
        routed(before, sender, MessageView::SendFile { recipient, ticket }, after, sent),
    ensures
        sent.reply == Some(MessageView::UserNotFound),
        sent.delivery is None,
        after == before,
{
}

/// Whatever the router puts into a mailbox is an event that is meant for a
/// peer, so the writing half drops nothing that the router has sent.
pub proof fn router_sends_only_events(
    before: Map<Seq<char>, MailboxId>,
    sender: MailboxId,
    command: MessageView,
    after: Map<Seq<char>, MailboxId>,
    outcome: DispatchView,
)
    requires
        routed(before, sender, command, after, outcome),
    ensures
        outcome.reply matches Some(reply) ==> reply.is_client_event(),
        outcome.delivery matches Some(delivery) ==> delivery.1.is_client_event(),
        !(outcome.reply is Some && outcome.delivery is Some),
{
}

/// A frame that holds no message is answered with exactly one
/// `ErrorDeserializingJson` and changes nothing: the message that comes next
/// on the connection is routed as if the frame had never come.
pub proof fn bad_frame_leaves_the_connection_usable(
    before: Map<Seq<char>, MailboxId>,
    sender: MailboxId,
    bad: InboundView,
    between: Map<Seq<char>, MailboxId>,
    refused: DispatchView,
    next: MessageView,
    after: Map<Seq<char>, MailboxId>,
    answered: DispatchView,
)
    requires
        !(bad is Decoded),
        received(before, sender, bad, between, refused),
        received(between, sender, InboundView::Decoded(next), after, answered),
    ensures
        refused.reply matches Some(MessageView::ErrorDeserializingJson(_)),
        refused.delivery is None,
        between == before,
        routed(before, sender, next, after, answered),
{
}

/// Once a nickname has been disconnected, a listing that excludes nobody
/// does not name it, and a ticket for it comes back as `UserNotFound`.
pub proof fn disconnected_is_gone(
    start: Map<Seq<char>, MailboxId>,
    by: MailboxId,
    asker: MailboxId,
    sender: MailboxId,
    nickname: Seq<char>,
    ticket: Seq<char>,
    one: Map<Seq<char>, MailboxId>,
    two: Map<Seq<char>, MailboxId>,
    end: Map<Seq<char>, MailboxId>,
    disconnected: DispatchView,
    listed: DispatchView,
    sent: DispatchView,
)
    requires
        routed(start, by, MessageView::DisconnectUser(nickname), one, disconnected),
        routed(one, asker, MessageView::GetActiveUsersList(nobody_excluded()), two, listed),
        routed(two, sender, MessageView::SendFile { recipient: nickname, ticket }, end, sent),
    ensures
        listed.reply matches Some(MessageView::ActiveUsersList(names)) && !names.contains(
            nickname,
        ),
        sent.reply == Some(MessageView::UserNotFound),
        sent.delivery is None,
{
    assert(!one.dom().contains(nickname));
}

/// Disconnecting a nickname that nobody holds changes nothing and is
/// answered with nothing.
pub proof fn disconnecting_a_stranger_does_nothing(
    before: Map<Seq<char>, MailboxId>,
    by: MailboxId,
    nickname: Seq<char>,
    after: Map<Seq<char>, MailboxId>,
    disconnected: DispatchView,
)
    requires
        !before.dom().contains(nickname),
        routed(before, by, MessageView::DisconnectUser(nickname), after, disconnected),
    ensures
        after == before,
        disconnected.reply is None,
        disconnected.delivery is None,
{
    assert(before.remove(nickname) =~= before);
}

/// Once a mailbox has been released, no nickname leads to it: a ticket,
/// whoever it is for, is delivered where it would have been delivered
/// before, or to nobody if that was the released mailbox.
pub proof fn released_mailbox_is_unreachable(
    before: Map<Seq<char>, MailboxId>,
    mailbox: MailboxId,
    recipient: Seq<char>,
    ticket: Seq<char>,
)
    ensures
        forall|name: Seq<char>| #[trigger]
            without_mailbox(before, mailbox).dom().contains(name) ==> without_mailbox(
                before,
                mailbox,
            )[name] != mailbox,
        delivery_for(
            without_mailbox(before, mailbox),
            MessageView::SendFile { recipient, ticket },
        ) == (if before.dom().contains(recipient) && before[recipient] != mailbox {
            delivery_for(before, MessageView::SendFile { recipient, ticket })
        } else {
            None
        }),
{
}

} // verus!
