//! The two error kinds of the connection lifecycle.

use vstd::prelude::*;

verus! {

/// Error surfaced only from `connect`/`reconnect`: the transport could not be
/// opened. The caller holds no handle afterwards and must start again from
/// `new` (or from the `Disconnected` handle it still owns).
#[derive(Clone, Copy, Debug, PartialEq, Eq, Structural)]
pub enum ConnectionError {
    /// The address could not be resolved to any endpoint.
    Unresolvable,
    /// A resolved endpoint actively refused the connection.
    Refused,
    /// No route to the resolved endpoint.
    Unreachable,
    /// The transport-level connect attempt failed for another reason.
    Failed,
}

/// Error surfaced only from `send`/`receive`: a transport-level read or write
/// failure. Partial success (a partial write, a zero-byte read on orderly
/// shutdown) is reported as a value, never as an error.
#[derive(Clone, Copy, Debug, PartialEq, Eq, Structural)]
pub enum IoError {
    /// The peer is gone: writing is no longer possible.
    PeerClosed,
    /// The transport reported a read or write failure.
    Failed,
}

} // verus!
