//! The errors that end a handshake or a packet's processing.
use vstd::prelude::*;
use vstd::string::StringExecFns;

verus! {

/// Why an event was refused.
#[derive(Debug, Clone, PartialEq, Eq)]
pub enum ContractError {
    /// A failure that the host runtime or its codec reported, by its text.
    Std(String),
    /// The channel is not unordered.
    OrderedChannel {},
    /// A side of the handshake proposed another version than this protocol's.
    InvalidVersion { actual: String, expected: String },
}

/// A `ContractError` as a mathematical value.
pub enum ErrorModel {
    Std(Seq<char>),
    OrderedChannel,
    InvalidVersion { actual: Seq<char>, expected: Seq<char> },
}

/// The message that an error shows to a reader.
pub open spec fn message_of(error: ErrorModel) -> Seq<char> {
    match error {
        ErrorModel::Std(text) => text,
        ErrorModel::OrderedChannel => "only unordered channels are supported"@,
        ErrorModel::InvalidVersion { actual, expected } => "invalid IBC channel version. Got ("@
            + actual + "), expected ("@ + expected + ")"@,
    }
}

impl View for ContractError {
    type V = ErrorModel;

    open spec fn view(&self) -> ErrorModel {
        match self {
            ContractError::Std(text) => ErrorModel::Std(text@),
            ContractError::OrderedChannel {  } => ErrorModel::OrderedChannel,
            ContractError::InvalidVersion { actual, expected } => ErrorModel::InvalidVersion {
                actual: actual@,
                expected: expected@,
            },
        }
    }
}

impl ContractError {
    /// The error's message.
    pub fn to_string(&self) -> (text: String)
        ensures
            text@ == message_of(self@),
    {
        match self {
            ContractError::Std(text) => text.clone(),
            ContractError::OrderedChannel {  } => "only unordered channels are supported".to_owned(),
            ContractError::InvalidVersion { actual, expected } => {
                let text = "invalid IBC channel version. Got (".to_owned();
                let text = text.concat(actual.as_str());
                let text = text.concat("), expected (");
                let text = text.concat(expected.as_str());
                text.concat(")")
            },
        }
    }
}

} // verus!
