//! Error types of the emulator.

use vstd::prelude::*;

verus! {

/// `std::io::Error`, carried as an opaque value: nothing is stated of what
/// it holds.
#[verifier::external_type_specification]
#[verifier::external_body]
pub struct ExIoError(std::io::Error);

/// `std::sync::PoisonError`, carried as an opaque value: nothing is stated of
/// what it holds.
#[verifier::external_type_specification]
#[verifier::external_body]
#[verifier::reject_recursive_types(T)]
pub struct ExPoisonError<T>(std::sync::PoisonError<T>);

/// System-wide error type.
#[derive(Debug)]
pub enum EmulatorError {
    /// Network error.
    IoError { cause: std::io::Error },
    /// A lock could not be obtained.
    LockError,
    /// Nothing more can be put on the point pipeline.
    PipelineFull,
    /// A command byte that the emulator does not handle.
    UnknownCommand,
}

/// An error that occurred when talking to the client.
#[derive(Debug, Clone, Copy, PartialEq, Eq)]
pub enum ClientError {
    /// The connection to the client failed.
    ConnectionError,
    /// The bytes received do not form a command.
    ParseError,
}

impl ClientError {
    /// The text under which the error is displayed: the variant's name.
    pub fn to_string(&self) -> (s: String)
        ensures
            *self is ConnectionError ==> s@ == "ConnectionError"@,
            *self is ParseError ==> s@ == "ParseError"@,
    {
        match *self {
            ClientError::ConnectionError => "ConnectionError".to_owned(),
            ClientError::ParseError => "ParseError".to_owned(),
        }
    }

    /// A sentence that describes the error.
    pub fn description(&self) -> (s: &'static str)
        ensures
            *self is ConnectionError ==> s@
                == "There was a problem with the client connection."@,
            *self is ParseError ==> s@ == "There was a problem parsing the client protocol."@,
    {
        match *self {
            ClientError::ConnectionError => "There was a problem with the client connection.",
            ClientError::ParseError => "There was a problem parsing the client protocol.",
        }
    }
}

impl From<std::io::Error> for ClientError {
    fn from(_error: std::io::Error) -> (e: ClientError) {
        ClientError::ConnectionError
    }
}

impl vstd::std_specs::convert::FromSpecImpl<std::io::Error> for ClientError {
    open spec fn obeys_from_spec() -> bool {
        true
    }

    open spec fn from_spec(v: std::io::Error) -> ClientError {
        ClientError::ConnectionError
    }
}

impl EmulatorError {
    /// A sentence that describes the error.
    pub fn description(&self) -> (s: &'static str)
        ensures
            *self is IoError ==> s@ == "A network operation failed."@,
            *self is LockError ==> s@ == "A lock could not be obtained."@,
            *self is PipelineFull ==> s@ == "The point pipeline is full."@,
            *self is UnknownCommand ==> s@ == "The client sent an unknown command."@,
    {
        match self {
            EmulatorError::IoError { .. } => "A network operation failed.",
            EmulatorError::LockError => "A lock could not be obtained.",
            EmulatorError::PipelineFull => "The point pipeline is full.",
            EmulatorError::UnknownCommand => "The client sent an unknown command.",
        }
    }

    /// The text under which the error is displayed: its description.
    pub fn to_string(&self) -> (s: String)
        ensures
            *self is IoError ==> s@ == "A network operation failed."@,
            *self is LockError ==> s@ == "A lock could not be obtained."@,
            *self is PipelineFull ==> s@ == "The point pipeline is full."@,
            *self is UnknownCommand ==> s@ == "The client sent an unknown command."@,
    {
        self.description().to_owned()
    }
}

impl From<std::io::Error> for EmulatorError {
    fn from(error: std::io::Error) -> (e: EmulatorError) {
        EmulatorError::IoError { cause: error }
    }
}

impl vstd::std_specs::convert::FromSpecImpl<std::io::Error> for EmulatorError {
    open spec fn obeys_from_spec() -> bool {
        true
    }

    open spec fn from_spec(v: std::io::Error) -> EmulatorError {
        EmulatorError::IoError { cause: v }
    }
}

impl<T> From<std::sync::PoisonError<T>> for EmulatorError {
    fn from(_error: std::sync::PoisonError<T>) -> (e: EmulatorError) {
        EmulatorError::LockError
    }
}

impl<T> vstd::std_specs::convert::FromSpecImpl<std::sync::PoisonError<T>> for EmulatorError {
    open spec fn obeys_from_spec() -> bool {
        true
    }

    open spec fn from_spec(v: std::sync::PoisonError<T>) -> EmulatorError {
        EmulatorError::LockError
    }
}

} // verus!
