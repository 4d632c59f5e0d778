//! The messages that the actors of this crate exchange.
use vstd::prelude::*;

verus! {

/// Something happened on the federated timeline: a text message came in.
#[derive(Debug, PartialEq, Eq, Structural, Clone, Copy)]
pub struct Activity;

/// Asks a client to open its websocket connection.
#[derive(Debug, PartialEq, Eq, Structural, Clone, Copy)]
pub struct Connect;

/// Asks a client to close its connection and stop.
#[derive(Debug, PartialEq, Eq, Structural, Clone, Copy)]
pub struct Close;

/// A unit of work that the determinator hands to a worker.
#[derive(Debug, PartialEq, Eq, Structural, Clone, Copy)]
pub struct Job;

} // verus!
