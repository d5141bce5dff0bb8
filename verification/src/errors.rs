//! The error vocabulary the consumer-facing operations surface.

use vstd::prelude::*;

verus! {

/// Why a pull operation failed. "Nothing queued" is not an error: the
/// pull operations keep it apart from these, so that an empty queue is
/// never mistaken for a failure.
#[derive(Clone, Copy, Debug, PartialEq, Eq, Structural)]
pub enum RecvError {
    /// The listener answered with something other than a delivery or
    /// an empty signal: the protocol round-trip itself went wrong.
    Fault,
    /// A delivered packet's bytes did not decode into the requested
    /// type.
    Decode,
}

/// Why a send operation failed.
#[derive(Clone, Copy, Debug, PartialEq, Eq, Structural)]
pub enum SendError {
    /// The value could not be encoded into payload bytes.
    Encode,
    /// The datagram could not be handed to the transport.
    Io,
}

} // verus!
