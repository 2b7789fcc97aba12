//! The failures that the relay reports to its caller.

use vstd::prelude::*;

verus! {

/// Why a relay operation failed.
#[derive(Debug, Clone, Copy, PartialEq, Eq, Structural)]
pub enum RelayError {
    /// The relay could not be built: the loop owner could not be started, or
    /// the handshake broke off.
    Construction,
    /// The peer sent a message that the protocol does not allow at this point.
    ProtocolViolation,
    /// The peer's end of the channel is gone.
    ChannelDisconnected,
    /// A size query is already waiting for its reply.
    QueryPending,
}

} // verus!
