//! The protocol's error values.

use vstd::prelude::*;

verus! {

/// Everything that can go wrong inside the protocol core.
///
/// Decode errors (`InvalidUtf8`) are fatal to the connection; validation
/// errors (`InvalidInput`) are request-level and leave the connection
/// usable; `UnknownRequestId` and `UnexpectedResponse` are protocol errors
/// raised by the correlation engines; `ConnectionClosed` fails the calls
/// still outstanding when the peer hangs up; `TimedOut` is the deadline
/// middleware's caller-visible error; `ExpectedPong` is raised by the
/// client-side ping helper when the reply is not the pong token.
#[derive(Clone, Copy, Debug, PartialEq, Eq, Structural)]
pub enum ProtoError {
    /// A decoded line was not valid UTF-8: an "invalid string" on the wire.
    InvalidUtf8,
    /// A request or response payload contained the frame delimiter.
    InvalidInput,
    /// A multiplexed response carried an id with no pending call.
    UnknownRequestId,
    /// A pipelined response arrived with no call outstanding.
    UnexpectedResponse,
    /// The peer closed the connection while calls were outstanding.
    ConnectionClosed,
    /// A call did not complete before its deadline.
    TimedOut,
    /// A ping was answered with something other than the pong token.
    ExpectedPong,
}

impl ProtoError {
    /// A short description, in place of a `Display` impl.
    pub fn describe(&self) -> (r: &'static str)
    {
        match self {
            ProtoError::InvalidUtf8 => "invalid string",
            ProtoError::InvalidInput => "message contained new line",
            ProtoError::UnknownRequestId => "response for unknown request id",
            ProtoError::UnexpectedResponse => "response with no pending request",
            ProtoError::ConnectionClosed => "connection closed",
            ProtoError::TimedOut => "request timed out",
            ProtoError::ExpectedPong => "expected pong",
        }
    }
}

} // verus!
