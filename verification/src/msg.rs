//! The messages that the application takes and answers.
use vstd::prelude::*;
use crate::host::{Coin, IbcTimeout};

verus! {

/// Sent once, when the application is set up. It carries nothing.
#[derive(Debug, Clone, PartialEq, Eq)]
pub struct InstantiateMsg {}

/// A command to the application.
#[derive(Debug, Clone, PartialEq, Eq)]
pub enum ExecuteMsg {
    /// Forward `amount` to `to_address` over the channel `channel_id`.
    Transfer { channel_id: String, to_address: String, amount: Coin, timeout: IbcTimeout },
    /// Ask the peer on `channel` to count once more. Where the command names
    /// no timeout, the packet is given up two minutes after it was sent.
    Increment { channel: String, timeout: Option<IbcTimeout> },
}

/// The action that an application packet carries.
#[derive(Debug, Clone, Copy, PartialEq, Eq, Structural)]
pub enum IbcExecuteMsg {
    /// Count once more on the receiving channel.
    Increment {},
}

/// A question about a local channel.
#[derive(Debug, Clone, PartialEq, Eq)]
pub enum QueryMsg {
    /// How many packets were processed on `channel`.
    GetCount { channel: String },
    /// How many packets sent on `channel` timed out.
    GetTimeoutCount { channel: String },
}

/// The answer to either question.
#[derive(Debug, Clone, Copy, PartialEq, Eq, Structural)]
pub struct GetCountResponse {
    pub count: u32,
}

} // verus!
