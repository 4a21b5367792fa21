use vstd::prelude::*;

use crate::contacts::{can_contact, may_contact, PairState};
use crate::text::{has_prefix, text_is};

verus! {

/// What the live-event router reads of an event: its type (empty when it has
/// none), its `to_user_id`, the id of its `from` account, its `scope`, its
/// `recipient_id` and the id of its message's sender.
#[derive(Debug)]
pub struct EventFields {
    pub event_type: String,
    pub to_user_id: Option<i64>,
    pub from_id: Option<i64>,
    pub scope: Option<String>,
    pub recipient_id: Option<i64>,
    pub message_sender_id: Option<i64>,
}

/// Whether an event of type `t` belongs to a call between two accounts.
pub open spec fn is_call_event_type(t: Seq<char>) -> bool {
    ||| "call_"@.len() <= t.len() && t.take("call_"@.len() as int) == "call_"@
    ||| t == "ice_candidate"@
}

/// Whether `scope` names direct messages.
pub open spec fn is_direct_scope(scope: Option<String>) -> bool {
    scope matches Some(s) && s@ == "dm"@
}

/// Whether account `user_id` receives `event`. An event that could not be read
/// goes to everyone. A call event goes only to the two parties of the call.
/// A direct-message event goes only to its recipient and its message's
/// sender; every other event goes to everyone.
pub open spec fn visible_to(event: Option<EventFields>, user_id: i64) -> bool {
    match event {
        None => true,
        Some(e) => if is_call_event_type(e.event_type@) {
            e.to_user_id == Some(user_id) || e.from_id == Some(user_id)
        } else {
            !is_direct_scope(e.scope) || e.recipient_id == Some(user_id) || e.message_sender_id
                == Some(user_id)
        },
    }
}

/// Whether account `user_id` receives `event` (see `visible_to`).
pub fn event_visible(event: &Option<EventFields>, user_id: i64) -> (r: bool)
    ensures
        r == visible_to(*event, user_id),
{
    match event {
        None => true,
        Some(e) => {
            let t = e.event_type.as_str();
            if has_prefix(t, "call_") || text_is(t, "ice_candidate") {
                e.to_user_id == Some(user_id) || e.from_id == Some(user_id)
            } else {
                let direct = match &e.scope {
                    Some(s) => text_is(s.as_str(), "dm"),
                    None => false,
                };
                !direct || e.recipient_id == Some(user_id) || e.message_sender_id == Some(user_id)
            }
        },
    }
}

/// The largest signalling message, in bytes, that is relayed.
pub const MAX_SIGNAL_BYTES: usize = 65536;

/// Whether a client may relay a signal of type `t`.
pub open spec fn is_signal_type(t: Seq<char>) -> bool {
    ||| t == "call_offer"@
    ||| t == "call_answer"@
    ||| t == "ice_candidate"@
    ||| t == "call_end"@
    ||| t == "call_reject"@
}

/// The account a client's signalling message is meant for, if it is relayed
/// at all: the message must be at most 64 KiB, readable, of a signal type,
/// and name a positive account other than the sender.
pub open spec fn signal_recipient(text_bytes: usize, signal: Option<EventFields>, user_id: i64) -> Option<i64> {
    match signal {
        Some(s) => {
            let target = match s.to_user_id {
                Some(t) => t,
                None => 0,
            };
            if text_bytes <= MAX_SIGNAL_BYTES && is_signal_type(s.event_type@) && target > 0 && target
                != user_id {
                Some(target)
            } else {
                None
            }
        },
        None => None,
    }
}

/// The account a client's signalling message is meant for, if it is relayed
/// at all (see `signal_recipient`).
pub fn signal_target(text_bytes: usize, signal: &Option<EventFields>, user_id: i64) -> (r: Option<i64>)
    ensures
        r == signal_recipient(text_bytes, *signal, user_id),
{
    if text_bytes > MAX_SIGNAL_BYTES {
        return None;
    }
    match signal {
        None => None,
        Some(s) => {
            let t = s.event_type.as_str();
            let allowed = text_is(t, "call_offer") || text_is(t, "call_answer") || text_is(
                t,
                "ice_candidate",
            ) || text_is(t, "call_end") || text_is(t, "call_reject");
            let target = match s.to_user_id {
                Some(v) => v,
                None => 0,
            };
            if allowed && target > 0 && target != user_id {
                Some(target)
            } else {
                None
            }
        },
    }
}

/// Whether a signal is relayed to its target, given the target's stored
/// `active` flag (none when the account is unknown or could not be read) and
/// how the sender and the target stand towards each other: only active
/// accounts receive signals, and only from friends that neither blocked.
pub fn relay_to(target_active: Option<i64>, pair: &PairState) -> (r: bool)
    ensures
        r == (target_active == Some(1i64) && may_contact(*pair)),
{
    target_active == Some(1i64) && can_contact(pair)
}

/// What happened on a client's live connection.
#[derive(Debug)]
pub enum SocketEvent {
    /// An event was broadcast; `None` when it could not be read.
    Broadcast(Option<EventFields>),
    /// The broadcast stream ended or this connection fell behind it.
    BroadcastLost,
    /// The client pinged.
    ClientPing,
    /// The client sent a text frame.
    ClientText,
    /// The client closed the connection, it ended, or it failed.
    ClientGone,
    /// The client sent anything else.
    ClientOther,
    /// Sending to the client failed.
    SendFailed,
}

/// What the connection does next.
#[derive(Clone, Copy, Debug, PartialEq, Eq, Structural)]
pub enum SocketAction {
    /// Pass the broadcast event on to the client.
    Forward,
    /// Answer the ping.
    Pong,
    /// Treat the text as a call signal (see `signal_target`).
    RouteSignal,
    /// Do nothing.
    Ignore,
    /// Close the connection.
    Stop,
}

/// What a live connection of account `user_id` does on `event`: visible events
/// are passed on, pings answered, texts taken as call signals; a lost broadcast
/// stream, a gone client or a failed send ends the connection.
pub open spec fn socket_reaction(event: SocketEvent, user_id: i64) -> SocketAction {
    match event {
        SocketEvent::Broadcast(e) => if visible_to(e, user_id) {
            SocketAction::Forward
        } else {
            SocketAction::Ignore
        },
        SocketEvent::BroadcastLost => SocketAction::Stop,
        SocketEvent::ClientPing => SocketAction::Pong,
        SocketEvent::ClientText => SocketAction::RouteSignal,
        SocketEvent::ClientGone => SocketAction::Stop,
        SocketEvent::ClientOther => SocketAction::Ignore,
        SocketEvent::SendFailed => SocketAction::Stop,
    }
}

/// What a live connection of account `user_id` does on `event` (see
/// `socket_reaction`).
pub fn socket_step(event: &SocketEvent, user_id: i64) -> (a: SocketAction)
    ensures
        a == socket_reaction(*event, user_id),
{
    match event {
        SocketEvent::Broadcast(e) => {
            if event_visible(e, user_id) {
                SocketAction::Forward
            } else {
                SocketAction::Ignore
            }
        },
        SocketEvent::BroadcastLost => SocketAction::Stop,
        SocketEvent::ClientPing => SocketAction::Pong,
        SocketEvent::ClientText => SocketAction::RouteSignal,
        SocketEvent::ClientGone => SocketAction::Stop,
        SocketEvent::ClientOther => SocketAction::Ignore,
        SocketEvent::SendFailed => SocketAction::Stop,
    }
}

} // verus!
