//! The transport abstraction (publish outbound, subscribe inbound, handler
//! callbacks) and the controller that applies the round-decision rule to
//! every inbound slate.

use vstd::prelude::*;
use crate::address::Address;
use crate::error::{CloseReason, Error};
use crate::events::{
    ProtocolEvent, is_received_evt, is_sent_evt, is_finalized_evt, is_publish_failed_evt,
    is_processing_failed_evt, no_finalized_evt, no_sent_evt,
};
use crate::slate::{Slate, TxProof, slate_eq, received_from, finalized_from};

verus! {

/// What the round-decision rule asks for on one inbound slate.
#[derive(Clone, Copy, PartialEq, Eq, Structural, Debug)]
pub enum RoundDecision {
    /// The slate breaks the protocol invariant; it is refused.
    Reject,
    /// The handshake is incomplete but the proposal has no inputs: an
    /// invoicing proposal, refused explicitly rather than accepted silently.
    Invoice,
    /// The handshake is incomplete: this party must add its contribution
    /// and send the slate back.
    Receive,
    /// The handshake is complete: the slate is finalized and nothing is
    /// sent back.
    Finalize,
}

/// The round-decision rule: what processing must do with a slate, as a
/// function of its participant counts and its inputs alone.
pub open spec fn round_decision(s: Slate) -> RoundDecision {
    if !s.wf() {
        RoundDecision::Reject
    } else if s.participant_data.len() < s.num_participants {
        if s.tx.inputs.len() == 0 {
            RoundDecision::Invoice
        } else {
            RoundDecision::Receive
        }
    } else {
        RoundDecision::Finalize
    }
}

/// Decide what one round of processing must do with `s`.
pub fn decide_round(s: &Slate) -> (d: RoundDecision)
    ensures
        d == round_decision(*s),
{
    if s.num_participants < 1 || s.participant_data.len() > s.num_participants {
        RoundDecision::Reject
    } else if s.participant_data.len() < s.num_participants {
        if s.tx.inputs.len() == 0 {
            RoundDecision::Invoice
        } else {
            RoundDecision::Receive
        }
    } else {
        RoundDecision::Finalize
    }
}

/// Outbound transport role: sends a slate to one endpoint. A failure means
/// the outbound path is currently unusable for that address; it is reported
/// to the caller and never aborts anything.
pub trait Publisher {
    fn post_slate(&self, slate: &Slate, to: &Address) -> Result<(), Error>;
}

/// Receive-side wallet capability: appends this party's contribution to an
/// incomplete slate. Either it succeeds and hands back the fully updated
/// slate, or it fails and the original slate stands untouched.
pub trait SlateReceiver {
    fn receive_tx(&self, slate: &Slate, address: Option<&str>, message: Option<&str>) -> (r:
        Result<Slate, Error>)
        requires
            slate.wf(),
            slate.participant_data.len() < slate.num_participants,
            slate.tx.inputs.len() > 0,
        ensures
            match r {
                Ok(s2) => received_from(*slate, s2),
                Err(e) => e is CapabilityError,
            },
    ;
}

/// Finalize-side wallet capability: validates the full participant set and
/// completes the transaction. Either it succeeds and the slate holds the
/// finalized form, or it fails and the slate stands untouched.
pub trait SlateFinalizer {
    fn finalize_tx(&self, slate: &mut Slate) -> (r: Result<(), Error>)
        requires
            old(slate).wf(),
            old(slate).is_complete(),
        ensures
            match r {
                Ok(()) => finalized_from(*old(slate), *final(slate)),
                Err(e) => e is CapabilityError && slate_eq(*final(slate), *old(slate)),
            },
    ;
}

/// Binds one named listener to one handler and one publisher, and applies
/// the round-decision rule to each inbound slate.
pub struct Controller<F, O, P> where F: SlateReceiver, O: SlateFinalizer, P: Publisher {
    name: String,
    foreign: F,
    owner: O,
    publisher: P,
}

/// What one processing round leaves behind: how the slate after the call
/// relates to the slate before it, for each decision and outcome.
pub open spec fn process_post(pre: Slate, post: Slate, r: Result<bool, Error>) -> bool {
    match round_decision(pre) {
        RoundDecision::Reject => r == Err::<bool, Error>(Error::ProtocolViolation) && slate_eq(
            post,
            pre,
        ),
        RoundDecision::Invoice => r == Err::<bool, Error>(Error::UnsupportedOperation)
            && slate_eq(post, pre),
        RoundDecision::Receive => match r {
            Ok(finalized) => !finalized && received_from(pre, post) && post.wf(),
            Err(e) => e is CapabilityError && slate_eq(post, pre),
        },
        RoundDecision::Finalize => match r {
            Ok(finalized) => finalized && finalized_from(pre, post) && post.wf()
                && post.is_complete(),
            Err(e) => e is CapabilityError && slate_eq(post, pre),
        },
    }
}

impl<F: SlateReceiver, O: SlateFinalizer, P: Publisher> Controller<F, O, P> {
    /// The listener name this controller was built with.
    pub closed spec fn spec_name(&self) -> Seq<char> {
        self.name@
    }

    /// Build a controller for the listener called `name` around the three
    /// injected capabilities.
    pub fn new(name: &str, foreign: F, owner: O, publisher: P) -> (r: Result<Self, Error>)
        ensures
            r matches Ok(c) && c.spec_name() == name@,
    {
        Ok(
            Controller {
                name: name.to_owned(),
                foreign,
                owner,
                publisher,
            },
        )
    }

    /// Apply the round-decision rule to one inbound slate: refuse an
    /// ill-formed or invoicing proposal, add this party's contribution to
    /// an incomplete one, finalize a complete one. Returns whether the
    /// slate was finalized; on any failure the slate stands untouched.
    pub fn process_incoming_slate(
        &self,
        address: Option<&str>,
        slate: &mut Slate,
        tx_proof: Option<&TxProof>,
    ) -> (r: Result<bool, Error>)
        ensures
            process_post(*old(slate), *final(slate), r),
    {
        match decide_round(slate) {
            RoundDecision::Reject => Err(Error::ProtocolViolation),
            RoundDecision::Invoice => Err(Error::UnsupportedOperation),
            RoundDecision::Receive => match self.foreign.receive_tx(slate, None, None) {
                Ok(s2) => {
                    *slate = s2;
                    Ok(false)
                },
                Err(e) => Err(e),
            },
            RoundDecision::Finalize => match self.owner.finalize_tx(slate) {
                Ok(()) => Ok(true),
                Err(e) => Err(e),
            },
        }
    }
}

/// The callback contract a subscriber drives: `on_open` once at a
/// successful connect; then any interleaving of `on_slate`, `on_dropped`
/// and `on_reestablished`, a dropped/reestablished pair bracketing every
/// disconnect; finally exactly one terminal `on_close`. Each callback
/// returns the protocol events it gives rise to.
pub trait SubscriptionHandler {
    fn on_open(&self) -> Vec<ProtocolEvent>;

    fn on_slate(&self, from: &Address, slate: &mut Slate, tx_proof: Option<&TxProof>) -> (Vec<
        ProtocolEvent,
    >, Result<bool, Error>);

    fn on_close(&self, reason: CloseReason) -> Vec<ProtocolEvent>;

    fn on_dropped(&self) -> Vec<ProtocolEvent>;

    fn on_reestablished(&self) -> Vec<ProtocolEvent>;
}

/// Inbound transport role: one background listening loop per instance,
/// owning its connect/reconnect lifecycle and driving a handler. `stop` is
/// idempotent; `is_running` reports the post-connect running state,
/// excluding the dropped window.
pub trait Subscriber {
    fn start<F: SlateReceiver, O: SlateFinalizer, P: Publisher>(
        &mut self,
        handler: Controller<F, O, P>,
    ) -> Result<(), Error>;

    fn stop(&self);

    fn is_running(&self) -> bool;
}

/// What handling one inbound slate leaves behind: the slate after the call
/// and the emitted events, for each decision and outcome. The handshake
/// rule of the exchange stands here: an incomplete slate that was received
/// goes back to its sender, a complete one is finalized and nothing is
/// published.
pub open spec fn on_slate_post(
    pre: Slate,
    post: Slate,
    from: crate::address::AddressView,
    events: Seq<ProtocolEvent>,
    out: Result<bool, Error>,
) -> bool {
    &&& events.len() == 2
    &&& is_received_evt(events[0], pre, from.id)
    &&& (out != Ok::<bool, Error>(true) ==> no_finalized_evt(events))
    &&& match round_decision(pre) {
        RoundDecision::Reject => slate_eq(post, pre) && is_processing_failed_evt(
            events[1],
            pre.id,
            Error::ProtocolViolation,
        ) && out == Err::<bool, Error>(Error::ProtocolViolation),
        RoundDecision::Invoice => slate_eq(post, pre) && is_processing_failed_evt(
            events[1],
            pre.id,
            Error::UnsupportedOperation,
        ) && out == Err::<bool, Error>(Error::UnsupportedOperation),
        RoundDecision::Receive => {
            ||| (received_from(pre, post) && is_sent_evt(events[1], pre.id, from.id) && out
                == Ok::<bool, Error>(false))
            ||| (received_from(pre, post) && is_publish_failed_evt(events[1], pre.id, from.id)
                && out == Err::<bool, Error>(Error::TransportError))
            ||| (slate_eq(post, pre) && is_processing_failed_evt(
                events[1],
                pre.id,
                Error::CapabilityError,
            ) && out == Err::<bool, Error>(Error::CapabilityError))
        },
        RoundDecision::Finalize => {
            &&& no_sent_evt(events)
            &&& {
                ||| (finalized_from(pre, post) && is_finalized_evt(events[1], pre.id) && out
                    == Ok::<bool, Error>(true))
                ||| (slate_eq(post, pre) && is_processing_failed_evt(
                    events[1],
                    pre.id,
                    Error::CapabilityError,
                ) && out == Err::<bool, Error>(Error::CapabilityError))
            }
        },
    }
}

/// The growth law of an incomplete handshake: when a round on a
/// well-formed, incomplete, non-invoicing slate succeeds, the result is
/// not finalized and the contributions grew by exactly one, with the
/// earlier ones kept in order.
pub proof fn lemma_incomplete_round_grows(pre: Slate, post: Slate, r: Result<bool, Error>)
    requires
        pre.wf(),
        pre.participant_data.len() < pre.num_participants,
        pre.tx.inputs.len() > 0,
        process_post(pre, post, r),
        r is Ok,
    ensures
        r == Ok::<bool, Error>(false),
        post.participant_data.len() == pre.participant_data.len() + 1,
        pre.participant_data@.is_prefix_of(post.participant_data@),
{
}

/// The invoicing law: a round on a well-formed, incomplete slate with no
/// transaction inputs never silently returns the slate unchanged as a
/// success — it fails with exactly the unsupported-operation error and
/// leaves the slate untouched.
pub proof fn lemma_invoicing_rejected(pre: Slate, post: Slate, r: Result<bool, Error>)
    requires
        pre.wf(),
        pre.participant_data.len() < pre.num_participants,
        pre.tx.inputs.len() == 0,
        process_post(pre, post, r),
    ensures
        r == Err::<bool, Error>(Error::UnsupportedOperation),
        slate_eq(post, pre),
{
}

/// The finalize-only law of a complete handshake: handling a well-formed
/// slate whose contributions match its required count publishes nothing,
/// and a successful outcome is exactly a finalization that keeps the
/// participant set.
pub proof fn lemma_complete_is_finalize_only(
    pre: Slate,
    post: Slate,
    from: crate::address::AddressView,
    events: Seq<ProtocolEvent>,
    out: Result<bool, Error>,
)
    requires
        pre.wf(),
        pre.is_complete(),
        on_slate_post(pre, post, from, events, out),
    ensures
        no_sent_evt(events),
        out is Ok ==> out == Ok::<bool, Error>(true) && finalized_from(pre, post),
{
}

impl<F: SlateReceiver, O: SlateFinalizer, P: Publisher> SubscriptionHandler for Controller<
    F,
    O,
    P,
> {
    /// Reports that this listener connected and started serving.
    fn on_open(&self) -> (events: Vec<ProtocolEvent>)
        ensures
            events@.len() == 1,
            events@[0] matches ProtocolEvent::ListenerStarted { name } && name@
                == self.spec_name(),
    {
        let mut events: Vec<ProtocolEvent> = Vec::new();
        events.push(ProtocolEvent::ListenerStarted { name: self.name.clone() });
        events
    }

    /// Handle one inbound slate: report its arrival, apply the
    /// round-decision rule, send an incomplete slate back to its sender,
    /// and report every outcome. A publish failure is surfaced as a
    /// transport error, never a crash; on any processing failure the slate
    /// stands untouched.
    fn on_slate(&self, from: &Address, slate: &mut Slate, tx_proof: Option<&TxProof>) -> (r: (
        Vec<ProtocolEvent>,
        Result<bool, Error>,
    ))
        ensures
            on_slate_post(*old(slate), *final(slate), from@, r.0@, r.1),
    {
        let display_from = from.stripped();
        let mut events: Vec<ProtocolEvent> = Vec::new();
        let back = slate.participant_data.len() >= slate.num_participants;
        events.push(
            ProtocolEvent::SlateReceived {
                id: slate.id,
                from: display_from,
                amount: slate.amount,
                back,
            },
        );
        let result = self.process_incoming_slate(None, slate, tx_proof);
        match result {
            Ok(false) => {
                match self.publisher.post_slate(slate, from) {
                    Ok(()) => {
                        events.push(ProtocolEvent::SlateSent { id: slate.id, to: from.stripped() });
                        (events, Ok(false))
                    },
                    Err(cause) => {
                        events.push(
                            ProtocolEvent::PublishFailed {
                                id: slate.id,
                                to: from.stripped(),
                                cause,
                            },
                        );
                        (events, Err(Error::TransportError))
                    },
                }
            },
            Ok(true) => {
                events.push(ProtocolEvent::SlateFinalized { id: slate.id });
                (events, Ok(true))
            },
            Err(cause) => {
                events.push(ProtocolEvent::ProcessingFailed { id: slate.id, cause });
                (events, Err(cause))
            },
        }
    }

    /// Reports how this listener's lifecycle ended.
    fn on_close(&self, reason: CloseReason) -> (events: Vec<ProtocolEvent>)
        ensures
            events@.len() == 1,
            events@[0] matches ProtocolEvent::ListenerClosed { name, reason: rsn } && name@
                == self.spec_name() && rsn == reason,
    {
        let mut events: Vec<ProtocolEvent> = Vec::new();
        events.push(ProtocolEvent::ListenerClosed { name: self.name.clone(), reason });
        events
    }

    /// Reports that this listener lost its connection and keeps retrying.
    fn on_dropped(&self) -> (events: Vec<ProtocolEvent>)
        ensures
            events@.len() == 1,
            events@[0] matches ProtocolEvent::ConnectionDropped { name } && name@
                == self.spec_name(),
    {
        let mut events: Vec<ProtocolEvent> = Vec::new();
        events.push(ProtocolEvent::ConnectionDropped { name: self.name.clone() });
        events
    }

    /// Reports that this listener restored its connection.
    fn on_reestablished(&self) -> (events: Vec<ProtocolEvent>)
        ensures
            events@.len() == 1,
            events@[0] matches ProtocolEvent::ConnectionReestablished { name } && name@
                == self.spec_name(),
    {
        let mut events: Vec<ProtocolEvent> = Vec::new();
        events.push(ProtocolEvent::ConnectionReestablished { name: self.name.clone() });
        events
    }
}

} // verus!
