//! Domain errors of the client library.
//!
//! Every failure is terminal for the operation that raised it: nothing in the
//! library retries. Platform error codes are carried as plain integers.

use vstd::prelude::*;

verus! {

/// One error kind per failure the protocol layers can surface.
#[derive(Debug, Clone, Copy, PartialEq, Eq, Structural)]
pub enum EdifierError {
    /// Discovery found no local Bluetooth radio at all.
    NoRadioAvailable,
    /// No device on any radio advertises the target service.
    ServiceNotFound,
    /// The connection attempt timed out.
    ConnectTimeout,
    /// The connection attempt failed with the given platform error code.
    ConnectFailed(i32),
    /// Writing to the established session failed with the given code.
    WriteError(i32),
    /// Reading from the established session failed with the given code.
    ReadError(i32),
    /// A received buffer was too short or its length field inconsistent.
    MalformedFrame,
    /// The response command code differs from the request's: `(expected, actual)`.
    ProtocolMismatch(u8, u8),
    /// A getter received a response that carries no payload.
    EmptyPayload,
}

} // verus!
