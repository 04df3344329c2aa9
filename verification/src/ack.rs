//! The acknowledgment that answers every received packet.
use vstd::prelude::*;

verus! {

/// What the sender of a packet learns of its fate.
#[derive(Debug, Clone, PartialEq, Eq)]
pub enum Ack {
    /// The packet was processed.
    Success,
    /// The packet was not processed, with the reason as text.
    Failure(String),
}

/// An `Ack` as a mathematical value.
pub enum AckModel {
    Success,
    Failure(Seq<char>),
}

impl View for Ack {
    type V = AckModel;

    open spec fn view(&self) -> AckModel {
        match self {
            Ack::Success => AckModel::Success,
            Ack::Failure(reason) => AckModel::Failure(reason@),
        }
    }
}

/// The acknowledgment of a processed packet.
pub fn make_ack_success() -> (ack: Ack)
    ensures
        ack@ == AckModel::Success,
{
    Ack::Success
}

/// The acknowledgment of a packet that failed with `err`.
pub fn make_ack_fail(err: String) -> (ack: Ack)
    ensures
        ack@ == AckModel::Failure(err@),
{
    Ack::Failure(err)
}

} // verus!
