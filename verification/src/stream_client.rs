//! A websocket client that pushes events to a server and answers its pings.
//!
//! The client writes each `Event` as the text message
//! `op: <op>, topic: <topic>`, writes an empty ping for each `Ping`, and
//! reads the frames that the server sends: it answers a ping with a pong
//! that carries the same payload, takes in text (which must be UTF-8), and
//! ignores every other frame.
use vstd::prelude::*;
use vstd::utf8::{decode_utf8, valid_utf8};

verus! {

/// The error of the client.
pub struct Error;

/// A websocket of the client.
pub struct Socket;

/// An HTTP request of the client.
pub struct HttpRequest;

/// Asks the client to ping the server.
pub struct Ping;

/// Something to push to the server: an operation on a topic.
pub struct Event {
    op: String,
    topic: String,
}

/// The text message that carries an event.
pub open spec fn event_text(op: Seq<char>, topic: Seq<char>) -> Seq<char> {
    "op: "@ + op + ", topic: "@ + topic
}

impl Event {
    /// The operation of the event.
    pub closed spec fn op_of(&self) -> String {
        self.op
    }

    /// The topic of the event.
    pub closed spec fn topic_of(&self) -> String {
        self.topic
    }

    /// The event `op` on `topic`.
    pub fn new(op: String, topic: String) -> (event: Self)
        ensures
            event.op_of() == op,
            event.topic_of() == topic,
    {
        Self { op, topic }
    }

    /// The operation of the event.
    pub fn op(&self) -> (op: &String)
        ensures
            *op == self.op_of(),
    {
        &self.op
    }

    /// The topic of the event.
    pub fn topic(&self) -> (topic: &String)
        ensures
            *topic == self.topic_of(),
    {
        &self.topic
    }

    /// The text message that carries the event: `op: <op>, topic: <topic>`.
    pub fn text(&self) -> (text: String)
        ensures
            text@ == event_text(self.op_of()@, self.topic_of()@),
            text@ == "op: "@ + self.op_of()@ + ", topic: "@ + self.topic_of()@,
    {
        let mut text = "op: ".to_owned();
        text.append(self.op.as_str());
        text.append(", topic: ");
        text.append(self.topic.as_str());
        text
    }
}

/// A message that the client writes to its websocket.
#[derive(Debug, Clone, PartialEq, Eq)]
pub enum Outgoing {
    /// A text message.
    Text(String),
    /// A ping with this payload.
    Ping(Vec<u8>),
    /// A pong with this payload.
    Pong(Vec<u8>),
}

/// A frame that the client reads from its websocket.
#[derive(Debug, Clone, PartialEq, Eq)]
pub enum Frame {
    /// A text frame, with its bytes.
    Text(Vec<u8>),
    /// A binary frame.
    Binary,
    /// A continuation frame.
    Continuation,
    /// A ping, with its payload.
    Ping(Vec<u8>),
    /// A pong.
    Pong,
    /// A close frame.
    Close,
}

/// A message to the client.
pub enum Command {
    /// Push this event to the server.
    Event(Event),
    /// Ping the server.
    Ping(Ping),
}

/// What the client does with a frame that it read.
#[derive(Debug, Clone, PartialEq, Eq)]
pub enum FrameReaction {
    /// It took in this text.
    Received(String),
    /// It writes this message back.
    Reply(Outgoing),
    /// Nothing.
    Ignore,
}

/// Decodes UTF-8 text by `std::str::from_utf8`.
///
/// As std documents it, the call succeeds exactly when the bytes are valid
/// UTF-8, and then gives the string whose encoding they are; this contract
/// states both over vstd's `valid_utf8` and `decode_utf8`.
#[verifier::external_body]
fn str_from_utf8(bytes: &[u8]) -> (text: Option<&str>)
    ensures
        text is Some <==> valid_utf8(bytes@),
        text matches Some(t) ==> t@ == decode_utf8(bytes@),
{
    std::str::from_utf8(bytes).ok()
}

/// Pushes events to a server through the sink `S`, and reacts to what the
/// server sends.
pub struct FedClient<S> {
    sink: S,
}

impl<S> FedClient<S> {
    /// The sink through which the client writes to its websocket.
    pub closed spec fn sink_of(&self) -> S {
        self.sink
    }

    /// A client that writes through `sink`.
    pub fn start(sink: S) -> (client: Self)
        ensures
            client.sink_of() == sink,
    {
        FedClient { sink }
    }

    /// The sink through which the client writes to its websocket.
    pub fn sink(&self) -> (sink: &S)
        ensures
            *sink == self.sink_of(),
    {
        &self.sink
    }

    /// The sink through which the client writes to its websocket, to write to.
    pub fn sink_mut(&mut self) -> (sink: &mut S)
        ensures
            *sink == old(self).sink_of(),
            final(self).sink_of() == *final(sink),
    {
        &mut self.sink
    }

    /// Handles a message to the client: the result is what to write to the
    /// websocket.
    pub fn handle(&self, msg: Command) -> (out: Outgoing)
        ensures
            match msg {
                Command::Event(event) => out matches Outgoing::Text(text) && text@ == event_text(
                    event.op_of()@,
                    event.topic_of()@,
                ),
                Command::Ping(_) => out matches Outgoing::Ping(payload) && payload@ == Seq::<
                    u8,
                >::empty(),
            },
    {
        match msg {
            Command::Event(event) => Outgoing::Text(event.text()),
            Command::Ping(_) => Outgoing::Ping(Vec::new()),
        }
    }

    /// Handles a frame read from the websocket. Text frames must hold UTF-8.
    pub fn handle_frame(&self, frame: Frame) -> (reaction: FrameReaction)
        requires
            frame matches Frame::Text(bytes) ==> valid_utf8(bytes@),
        ensures
            match frame {
                Frame::Text(bytes) => reaction matches FrameReaction::Received(text) && text@
                    == decode_utf8(bytes@),
                Frame::Ping(payload) => reaction == FrameReaction::Reply(Outgoing::Pong(payload)),
                _ => reaction == FrameReaction::Ignore,
            },
    {
        match frame {
            Frame::Text(bytes) => {
                let text = str_from_utf8(bytes.as_slice()).unwrap();
                FrameReaction::Received(text.to_owned())
            },
            Frame::Ping(payload) => FrameReaction::Reply(Outgoing::Pong(payload)),
            Frame::Binary => FrameReaction::Ignore,
            Frame::Continuation => FrameReaction::Ignore,
            Frame::Pong => FrameReaction::Ignore,
            Frame::Close => FrameReaction::Ignore,
        }
    }
}

/// The text of an event is `op: ` (four characters), then the operation
/// verbatim, then `, topic: ` (nine characters), then the topic verbatim.
pub proof fn lemma_event_text_parts(op: Seq<char>, topic: Seq<char>)
    ensures
        event_text(op, topic).len() == op.len() + topic.len() + 13,
        event_text(op, topic).subrange(0, 4) == "op: "@,
        event_text(op, topic).subrange(4, 4 + op.len() as int) == op,
        event_text(op, topic).subrange(4 + op.len() as int, 13 + op.len() as int) == ", topic: "@,
        event_text(op, topic).subrange(13 + op.len() as int, 13 + op.len() as int + topic.len() as int) == topic,
{
    reveal_strlit("op: ");
    reveal_strlit(", topic: ");
    let t = event_text(op, topic);
    assert(t.subrange(0, 4) =~= "op: "@);
    assert(t.subrange(4, 4 + op.len() as int) =~= op);
    assert(t.subrange(4 + op.len() as int, 13 + op.len() as int) =~= ", topic: "@);
    assert(t.subrange(13 + op.len() as int, 13 + op.len() as int + topic.len() as int) =~= topic);
}

/// Two events on the same topic are written as the same text only when their
/// operations are the same: the operation is never rewritten.
pub proof fn lemma_event_text_keeps_op(op1: Seq<char>, op2: Seq<char>, topic: Seq<char>)
    requires
        event_text(op1, topic) == event_text(op2, topic),
    ensures
        op1 == op2,
{
    lemma_event_text_parts(op1, topic);
    lemma_event_text_parts(op2, topic);
}

} // verus!
