//! Fedetivity: automates a Mastodon account.
//!
//! Websocket clients read the federated timeline and turn each text message
//! into an `Activity`; the determinator turns each activity into a `Job` for
//! a worker. The clients decide, the actor runtime around them carries out
//! their decisions.
use vstd::prelude::*;

pub mod determinator;
pub mod fed_client;
pub mod messages;
pub mod session;
pub mod settings;
pub mod stream_client;
pub mod transmitter;
