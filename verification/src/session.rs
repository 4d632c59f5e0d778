//! What the websocket clients of this crate see and what they decide.
//!
//! A client's actor runtime feeds it events (messages to the actor and the
//! results of reading its websocket) and carries out the action that the
//! client decides on.
use vstd::prelude::*;

use crate::messages::{Activity, Close, Connect};

verus! {

/// How often, in milliseconds, a connected client reads its websocket.
pub const POLL_INTERVAL_MS: u64 = 200;

/// What one read of the websocket gave.
#[derive(Debug, Clone, PartialEq, Eq)]
pub enum WsRead {
    /// A text message, with its content.
    Text(String),
    /// A ping, with its payload.
    Ping(Vec<u8>),
    /// The server closed the connection.
    Close,
    /// Any other message (binary, pong, raw frame).
    Other,
    /// The read failed.
    Failed,
}

/// Something that happens to a client.
#[derive(Debug, Clone, PartialEq, Eq)]
pub enum ClientEvent {
    /// A `Connect` message reached the client.
    Connect(Connect),
    /// A `Close` message reached the client.
    Close(Close),
    /// The periodic read of the websocket gave a result.
    Read(WsRead),
}

/// Whether a client still handles events.
#[derive(Debug, Clone, Copy, PartialEq, Eq, Structural)]
pub enum Lifecycle {
    Running,
    Stopped,
}

/// What a client asks its runtime to do in response to an event.
#[derive(Debug, Clone, PartialEq, Eq)]
pub enum ClientAction {
    /// Connect to the websocket at this URI and read it every
    /// `POLL_INTERVAL_MS` milliseconds.
    OpenSocket(String),
    /// Send this activity to the client's recipient.
    Forward(Activity),
    /// Send this close request to the client itself.
    CloseSelf(Close),
    /// Stop the client.
    Stop,
    /// Nothing to do.
    Nothing,
}

/// The answer of a client when its runtime asks whether it may stop.
#[derive(Debug, Clone, Copy, PartialEq, Eq, Structural)]
pub enum Running {
    Stop,
    Continue,
}

/// The number of activities forwarded by a sequence of actions.
pub open spec fn forwarded_count(actions: Seq<ClientAction>) -> nat
    decreases actions.len(),
{
    if actions.len() == 0 {
        0
    } else {
        (if actions[0] is Forward { 1nat } else { 0nat }) + forwarded_count(actions.drop_first())
    }
}

/// Every action of the sequence is `Nothing`.
pub open spec fn all_nothing(actions: Seq<ClientAction>) -> bool {
    forall|i: int| 0 <= i < actions.len() ==> #[trigger] actions[i] == ClientAction::Nothing
}

/// The count of forwarded activities over a sequence that starts with `action`.
pub(crate) proof fn lemma_forwarded_count_cons(action: ClientAction, rest: Seq<ClientAction>)
    ensures
        forwarded_count(seq![action] + rest) == (if action is Forward { 1nat } else { 0nat })
            + forwarded_count(rest),
{
    let s = seq![action] + rest;
    assert(s.drop_first() =~= rest);
    assert(s[0] == action);
}

/// A sequence of `Nothing` actions forwards no activity.
pub(crate) proof fn lemma_nothing_forwards_nothing(actions: Seq<ClientAction>)
    requires
        all_nothing(actions),
    ensures
        forwarded_count(actions) == 0,
    decreases actions.len(),
{
    if actions.len() > 0 {
        assert(actions[0] == ClientAction::Nothing);
        let rest = actions.drop_first();
        assert forall|i: int| 0 <= i < rest.len() implies #[trigger] rest[i] == ClientAction::Nothing by {
            assert(rest[i] == actions[i + 1]);
        }
        lemma_nothing_forwards_nothing(rest);
    }
}

} // verus!
