//! The observable protocol events. Every decision the core takes is
//! reported as a value of this type; presentation (formatting, colouring,
//! printing) is left to the embedding program.

use vstd::prelude::*;
use crate::error::{CloseReason, Error};

verus! {

/// One observable protocol event. The event stream is the observability
/// sink of the core: each callback returns the events it gives rise to.
#[derive(Clone, Debug)]
pub enum ProtocolEvent {
    /// A listener connected and started serving.
    ListenerStarted { name: String },
    /// A listener ended its lifecycle, normally or abnormally.
    ListenerClosed { name: String, reason: CloseReason },
    /// A listener lost its connection and is retrying in the background.
    ConnectionDropped { name: String },
    /// A listener restored its connection.
    ConnectionReestablished { name: String },
    /// An inbound slate arrived; `back` says whether it came back with the
    /// handshake already complete.
    SlateReceived { id: u64, from: String, amount: u64, back: bool },
    /// A slate was sent onward to a counterparty.
    SlateSent { id: u64, to: String },
    /// A slate was finalized; the transaction is complete.
    SlateFinalized { id: u64 },
    /// Publishing a slate failed; the outbound path is unusable for now.
    PublishFailed { id: u64, to: String, cause: Error },
    /// Processing a slate failed; the slate was discarded unmutated.
    ProcessingFailed { id: u64, cause: Error },
}

/// `e` reports the arrival of slate `s` from the endpoint named `from`.
pub open spec fn is_received_evt(e: ProtocolEvent, s: crate::slate::Slate, from: Seq<char>) -> bool {
    e matches ProtocolEvent::SlateReceived { id, from: f, amount, back }
        && id == s.id
        && f@ == from
        && amount == s.amount
        && back == (s.participant_data.len() >= s.num_participants)
}

/// `e` reports that the slate with identity `id` was sent to `to`.
pub open spec fn is_sent_evt(e: ProtocolEvent, id: u64, to: Seq<char>) -> bool {
    e matches ProtocolEvent::SlateSent { id: i, to: t } && i == id && t@ == to
}

/// `e` reports that the slate with identity `id` was finalized.
pub open spec fn is_finalized_evt(e: ProtocolEvent, id: u64) -> bool {
    e matches ProtocolEvent::SlateFinalized { id: i } && i == id
}

/// `e` reports a failed publish of the slate with identity `id` to `to`.
pub open spec fn is_publish_failed_evt(e: ProtocolEvent, id: u64, to: Seq<char>) -> bool {
    e matches ProtocolEvent::PublishFailed { id: i, to: t, cause } && i == id && t@ == to
}

/// `e` reports that processing the slate with identity `id` failed with
/// exactly the cause `c`.
pub open spec fn is_processing_failed_evt(e: ProtocolEvent, id: u64, c: Error) -> bool {
    e matches ProtocolEvent::ProcessingFailed { id: i, cause } && i == id && cause == c
}

/// No event of the stream reports a slate being sent onward.
pub open spec fn no_sent_evt(es: Seq<ProtocolEvent>) -> bool {
    forall|i: int| 0 <= i < es.len() ==> !(#[trigger] es[i] is SlateSent)
}

/// No event of the stream reports a finalization.
pub open spec fn no_finalized_evt(es: Seq<ProtocolEvent>) -> bool {
    forall|i: int| 0 <= i < es.len() ==> !(#[trigger] es[i] is SlateFinalized)
}

} // verus!
