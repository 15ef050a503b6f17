//! Errors of the protocol layer.
use vstd::prelude::*;

verus! {

/// What can go wrong while a client's command is decoded or applied.
#[derive(Clone, Copy, Debug, PartialEq, Eq, Structural)]
pub enum Error {
    /// The frame is not a well-formed command.
    ProtoParseError,
    /// An `EVENT` frame of this many bytes is over the configured limit.
    EventMaxLengthError(usize),
    /// The connection already holds as many subscriptions as it may.
    SubMaxExceededError,
    /// The connection is gone.
    ConnError,
    /// The database directory does not exist.
    DatabaseDirError,
}

/// The text that describes an error to a client.
pub open spec fn error_text(e: Error) -> Seq<char> {
    match e {
        Error::ProtoParseError => "Protocol parse error"@,
        Error::EventMaxLengthError(_) => "Event exceeds maximum length"@,
        Error::SubMaxExceededError => "Maximum concurrent subscription count reached"@,
        Error::ConnError => "Connection error"@,
        Error::DatabaseDirError => "Database directory does not exist"@,
    }
}

impl Error {
    /// Describes the error in words.
    pub fn message(&self) -> (text: String)
        ensures
            text@ == error_text(*self),
    {
        match self {
            Error::ProtoParseError => "Protocol parse error".to_owned(),
            Error::EventMaxLengthError(_) => "Event exceeds maximum length".to_owned(),
            Error::SubMaxExceededError => "Maximum concurrent subscription count reached".to_owned(),
            Error::ConnError => "Connection error".to_owned(),
            Error::DatabaseDirError => "Database directory does not exist".to_owned(),
        }
    }
}

} // verus!
