//! The transmitter: a websocket client that passes text messages on to the
//! determinator.
//!
//! Like the client of `fed_client`, it connects on `Connect`, stops on
//! `Close`, reads its websocket every `POLL_INTERVAL_MS` milliseconds and
//! passes an `Activity` on for every text message, and sends itself a
//! `Close` when a read fails. Unlike that client, it treats a close message
//! from the server like any other non-text message: it keeps reading.
use vstd::prelude::*;

use crate::messages::{Activity, Close, Connect};
use crate::session::{
    all_nothing, forwarded_count, lemma_forwarded_count_cons, lemma_nothing_forwards_nothing,
    ClientAction, ClientEvent, Lifecycle, Running, WsRead,
};

verus! {

/// A websocket of the client.
pub struct Socket;

/// An HTTP request of the client.
pub struct HttpRequest;

/// What the client decides on an event in a given state, and its next state.
pub open spec fn transition(state: Lifecycle, ws_uri: String, event: ClientEvent) -> (
    Lifecycle,
    ClientAction,
) {
    match state {
        Lifecycle::Stopped => (Lifecycle::Stopped, ClientAction::Nothing),
        Lifecycle::Running => match event {
            ClientEvent::Connect(_) => (Lifecycle::Running, ClientAction::OpenSocket(ws_uri)),
            ClientEvent::Close(_) => (Lifecycle::Stopped, ClientAction::Stop),
            ClientEvent::Read(read) => match read {
                WsRead::Text(_) => (Lifecycle::Running, ClientAction::Forward(Activity)),
                WsRead::Ping(_) => (Lifecycle::Running, ClientAction::Nothing),
                WsRead::Close => (Lifecycle::Running, ClientAction::Nothing),
                WsRead::Other => (Lifecycle::Running, ClientAction::Nothing),
                WsRead::Failed => (Lifecycle::Running, ClientAction::CloseSelf(Close)),
            },
        },
    }
}

/// The final state and the actions of a client that handles `events` in order.
pub open spec fn run(state: Lifecycle, ws_uri: String, events: Seq<ClientEvent>) -> (
    Lifecycle,
    Seq<ClientAction>,
)
    decreases events.len(),
{
    if events.len() == 0 {
        (state, Seq::empty())
    } else {
        let (next, action) = transition(state, ws_uri, events[0]);
        let (last, rest) = run(next, ws_uri, events.drop_first());
        (last, seq![action] + rest)
    }
}

/// The event stops a running client.
pub open spec fn stops(event: ClientEvent) -> bool {
    event is Close
}

/// The number of text messages read before the first event that stops the client.
pub open spec fn texts_before_stop(events: Seq<ClientEvent>) -> nat
    decreases events.len(),
{
    if events.len() == 0 {
        0
    } else if stops(events[0]) {
        0
    } else {
        (if events[0] matches ClientEvent::Read(WsRead::Text(_)) { 1nat } else { 0nat })
            + texts_before_stop(events.drop_first())
    }
}

/// Reads a websocket and passes an activity to `M` for each text message.
///
/// `M` is the handle through which activities reach the determinator.
pub struct FedClient<M> {
    determinator: M,
    ws_uri: String,
    lifecycle: Lifecycle,
}

impl<M> FedClient<M> {
    /// The recipient of the client's activities.
    pub closed spec fn determinator_of(&self) -> M {
        self.determinator
    }

    /// The websocket URI that the client connects to.
    pub closed spec fn ws_uri_of(&self) -> String {
        self.ws_uri
    }

    /// Whether the client still handles events.
    pub closed spec fn lifecycle_of(&self) -> Lifecycle {
        self.lifecycle
    }

    /// A running client that will connect to `ws_uri` and pass activities
    /// to `determinator`.
    pub fn start(determinator: M, ws_uri: String) -> (client: Self)
        ensures
            client.determinator_of() == determinator,
            client.ws_uri_of() == ws_uri,
            client.lifecycle_of() == Lifecycle::Running,
    {
        FedClient { determinator, ws_uri, lifecycle: Lifecycle::Running }
    }

    /// The recipient of the client's activities.
    pub fn determinator(&self) -> (determinator: &M)
        ensures
            *determinator == self.determinator_of(),
    {
        &self.determinator
    }

    /// The websocket URI that the client connects to.
    pub fn ws_uri(&self) -> (ws_uri: &String)
        ensures
            *ws_uri == self.ws_uri_of(),
    {
        &self.ws_uri
    }

    /// Whether the client still handles events.
    pub fn lifecycle(&self) -> (lifecycle: Lifecycle)
        ensures
            lifecycle == self.lifecycle_of(),
    {
        self.lifecycle
    }

    /// Handles one event: moves to the next state and returns the action
    /// for the runtime.
    pub fn handle(&mut self, event: ClientEvent) -> (action: ClientAction)
        ensures
            (final(self).lifecycle_of(), action) == transition(
                old(self).lifecycle_of(),
                old(self).ws_uri_of(),
                event,
            ),
            final(self).ws_uri_of() == old(self).ws_uri_of(),
            final(self).determinator_of() == old(self).determinator_of(),
    {
        if self.lifecycle == Lifecycle::Stopped {
            return ClientAction::Nothing;
        }
        match event {
            ClientEvent::Connect(_) => ClientAction::OpenSocket(self.ws_uri.clone()),
            ClientEvent::Close(_) => {
                self.lifecycle = Lifecycle::Stopped;
                ClientAction::Stop
            },
            ClientEvent::Read(read) => match read {
                WsRead::Text(_) => ClientAction::Forward(Activity),
                WsRead::Ping(_) => ClientAction::Nothing,
                WsRead::Close => ClientAction::Nothing,
                WsRead::Other => ClientAction::Nothing,
                WsRead::Failed => ClientAction::CloseSelf(Close),
            },
        }
    }

    /// The client's answer when its runtime is about to stop it: it stops.
    pub fn stopping(&self) -> (running: Running)
        ensures
            running == Running::Stop,
    {
        Running::Stop
    }
}

/// A client answers every event with exactly one action.
pub proof fn lemma_one_action_per_event(state: Lifecycle, ws_uri: String, events: Seq<ClientEvent>)
    ensures
        run(state, ws_uri, events).1.len() == events.len(),
    decreases events.len(),
{
    if events.len() > 0 {
        let (next, _) = transition(state, ws_uri, events[0]);
        lemma_one_action_per_event(next, ws_uri, events.drop_first());
    }
}

/// A stopped client stays stopped and does nothing, whatever happens to it.
pub proof fn lemma_stopped_client_is_silent(ws_uri: String, events: Seq<ClientEvent>)
    ensures
        run(Lifecycle::Stopped, ws_uri, events).0 == Lifecycle::Stopped,
        all_nothing(run(Lifecycle::Stopped, ws_uri, events).1),
        forwarded_count(run(Lifecycle::Stopped, ws_uri, events).1) == 0,
    decreases events.len(),
{
    let actions = run(Lifecycle::Stopped, ws_uri, events).1;
    if events.len() > 0 {
        let rest = run(Lifecycle::Stopped, ws_uri, events.drop_first()).1;
        lemma_stopped_client_is_silent(ws_uri, events.drop_first());
        assert(actions == seq![ClientAction::Nothing] + rest);
        assert forall|i: int| 0 <= i < actions.len() implies #[trigger] actions[i]
            == ClientAction::Nothing by {
            if i > 0 {
                assert(actions[i] == rest[i - 1]);
            }
        }
    }
    lemma_nothing_forwards_nothing(actions);
}

/// A running client passes along exactly one activity for each text message
/// that it reads before it is stopped, and none after.
pub proof fn lemma_one_activity_per_text(ws_uri: String, events: Seq<ClientEvent>)
    ensures
        forwarded_count(run(Lifecycle::Running, ws_uri, events).1) == texts_before_stop(events),
    decreases events.len(),
{
    if events.len() > 0 {
        let (next, action) = transition(Lifecycle::Running, ws_uri, events[0]);
        let rest = run(next, ws_uri, events.drop_first()).1;
        lemma_forwarded_count_cons(action, rest);
        if stops(events[0]) {
            lemma_stopped_client_is_silent(ws_uri, events.drop_first());
        } else {
            lemma_one_activity_per_text(ws_uri, events.drop_first());
        }
    }
}

/// A running client ends up stopped exactly when one of the events that it
/// handles is one that stops it.
pub proof fn lemma_stops_exactly_on_stopping_event(ws_uri: String, events: Seq<ClientEvent>)
    ensures
        run(Lifecycle::Running, ws_uri, events).0 == Lifecycle::Stopped <==> exists|i: int|
            0 <= i < events.len() && stops(#[trigger] events[i]),
    decreases events.len(),
{
    if events.len() > 0 {
        let rest = events.drop_first();
        if stops(events[0]) {
            lemma_stopped_client_is_silent(ws_uri, rest);
        } else {
            lemma_stops_exactly_on_stopping_event(ws_uri, rest);
            if exists|i: int| 0 <= i < events.len() && stops(#[trigger] events[i]) {
                let i = choose|i: int| 0 <= i < events.len() && stops(#[trigger] events[i]);
                assert(rest[i - 1] == events[i]);
            }
            if exists|j: int| 0 <= j < rest.len() && stops(#[trigger] rest[j]) {
                let j = choose|j: int| 0 <= j < rest.len() && stops(#[trigger] rest[j]);
                assert(events[j + 1] == rest[j]);
            }
        }
    }
}

/// On `Connect`, a running client opens exactly the URI that it was started
/// with, whatever that URI is, and keeps running.
pub proof fn lemma_connect_opens_configured_uri(ws_uri: String, connect: Connect)
    ensures
        transition(Lifecycle::Running, ws_uri, ClientEvent::Connect(connect)) == (
            Lifecycle::Running,
            ClientAction::OpenSocket(ws_uri),
        ),
{
}

/// A running client that reads a ping, whatever its payload, does nothing
/// and keeps reading.
pub proof fn lemma_ping_is_ignored(ws_uri: String, payload: Vec<u8>)
    ensures
        transition(Lifecycle::Running, ws_uri, ClientEvent::Read(WsRead::Ping(payload))) == (
            Lifecycle::Running,
            ClientAction::Nothing,
        ),
{
}

/// A running client that reads a text message, whatever its content, passes
/// one activity along and keeps reading.
pub proof fn lemma_text_is_forwarded(ws_uri: String, content: String)
    ensures
        transition(Lifecycle::Running, ws_uri, ClientEvent::Read(WsRead::Text(content))) == (
            Lifecycle::Running,
            ClientAction::Forward(Activity),
        ),
{
}

/// A client passes an activity along exactly when it is running and reads a
/// text message.
pub proof fn lemma_only_text_is_forwarded(state: Lifecycle, ws_uri: String, event: ClientEvent)
    ensures
        transition(state, ws_uri, event).1 is Forward <==> (state == Lifecycle::Running
            && event matches ClientEvent::Read(WsRead::Text(_))),
{
}

/// A client sends itself a `Close` exactly when it is running and a read of
/// its websocket fails.
pub proof fn lemma_only_failed_read_closes_self(
    state: Lifecycle,
    ws_uri: String,
    event: ClientEvent,
)
    ensures
        transition(state, ws_uri, event).1 is CloseSelf <==> (state == Lifecycle::Running && event
            == ClientEvent::Read(WsRead::Failed)),
{
}

/// A client opens a socket exactly when it is running and receives
/// `Connect`, and then it opens its own URI.
pub proof fn lemma_only_connect_opens_socket(state: Lifecycle, ws_uri: String, event: ClientEvent)
    ensures
        transition(state, ws_uri, event).1 is OpenSocket <==> (state == Lifecycle::Running
            && event is Connect),
        transition(state, ws_uri, event).1 matches ClientAction::OpenSocket(uri) ==> uri == ws_uri,
{
}

/// A running client stops, with the action `Stop`, exactly on the events that
/// stop it, and otherwise keeps running.
pub proof fn lemma_stop_exactly_on_stopping_event(ws_uri: String, event: ClientEvent)
    ensures
        stops(event) ==> transition(Lifecycle::Running, ws_uri, event) == (
            Lifecycle::Stopped,
            ClientAction::Stop,
        ),
        !stops(event) ==> transition(Lifecycle::Running, ws_uri, event).0 == Lifecycle::Running
            && !(transition(Lifecycle::Running, ws_uri, event).1 is Stop),
{
}

} // verus!
