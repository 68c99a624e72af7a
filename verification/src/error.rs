//! The error taxonomy of the exchange core and the tagged outcome of a
//! listener's lifecycle ending.

use vstd::prelude::*;

verus! {

/// Why processing a slate, publishing it, or running a listener failed.
#[derive(Clone, Copy, PartialEq, Eq, Structural, Debug)]
pub enum Error {
    /// The slate breaks the protocol invariant: it asks for fewer than one
    /// participant, or carries more contributions than it asks for, or a
    /// finalized slate is replayed. Fatal to that one slate; the listener
    /// continues.
    ProtocolViolation,
    /// The slate is an invoicing (payment-request) proposal, which this
    /// core refuses explicitly instead of accepting silently.
    UnsupportedOperation,
    /// The outbound or inbound network path is currently unusable.
    /// Recoverable: reported to the caller, never fatal to the process.
    TransportError,
    /// The external receive-side or finalize-side wallet logic failed;
    /// the in-flight slate is discarded unmutated.
    CapabilityError,
}

/// The tagged outcome of a subscriber's lifecycle ending: a normal,
/// intentional stop, or an abnormal stop carrying its error cause.
#[derive(Clone, Copy, PartialEq, Eq, Structural, Debug)]
pub enum CloseReason {
    Normal,
    Abnormal(Error),
}

} // verus!
