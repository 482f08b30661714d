//! The ways an exchange can fail.

use vstd::prelude::*;

verus! {

/// Why an exchange, or the handling of one request, did not succeed.
#[derive(Clone, Copy, Debug, PartialEq, Eq, Structural)]
pub enum ErrorKind {
    /// The server address is malformed, or a command name does not join onto it.
    InvalidUrl,
    /// The connection could not be established, or the exchange was interrupted.
    TransportError,
    /// The request could not be encoded.
    SerializationError,
    /// A body does not have the shape that its reader expects.
    DeserializationError,
    /// The handler bound to the command reported a failure.
    HandlerError,
    /// The exchange took longer than the caller allowed.
    Timeout,
}

impl ErrorKind {
    /// The name of this kind of failure.
    pub fn name(&self) -> (r: &'static str)
        ensures
            r@ == self.spec_name(),
    {
        match self {
            ErrorKind::InvalidUrl => "InvalidUrl",
            ErrorKind::TransportError => "TransportError",
            ErrorKind::SerializationError => "SerializationError",
            ErrorKind::DeserializationError => "DeserializationError",
            ErrorKind::HandlerError => "HandlerError",
            ErrorKind::Timeout => "Timeout",
        }
    }

    /// The name of this kind of failure, as a sequence of characters.
    pub open spec fn spec_name(&self) -> Seq<char> {
        match self {
            ErrorKind::InvalidUrl => "InvalidUrl"@,
            ErrorKind::TransportError => "TransportError"@,
            ErrorKind::SerializationError => "SerializationError"@,
            ErrorKind::DeserializationError => "DeserializationError"@,
            ErrorKind::HandlerError => "HandlerError"@,
            ErrorKind::Timeout => "Timeout"@,
        }
    }
}

} // verus!
