//! Channel lifecycle and packet acknowledgment for a counter application that
//! talks to its peer over an unordered channel.
//!
//! - `state`: the counters of each channel, with the map they stand for.
//! - `ibc`: the handshake rules and the handlers of channel and packet events.
//! - `contract`: the commands and questions of the application itself.
//! - `trace`: what holds of the counters after any run of events.
//! - `msg`, `host`, `ack`, `error`: the values that go in and come out.
//! - `text`: comparison of texts and decimal numerals.
//!
//! Every handler states what it does to the counters and what it answers,
//! over mathematical models of both, and is proved to do so.
pub mod ack;
pub mod contract;
pub mod error;
pub mod host;
pub mod ibc;
pub mod msg;
pub mod state;
pub mod text;
pub mod trace;

pub use crate::error::ContractError;
