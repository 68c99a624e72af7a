use std::cell::RefCell;

use slate_broker::address::Address;
use slate_broker::broker::{
    Controller, Publisher, RoundDecision, SlateFinalizer, SlateReceiver, SubscriptionHandler,
    decide_round,
};
use slate_broker::error::{CloseReason, Error};
use slate_broker::events::ProtocolEvent;
use slate_broker::slate::{ParticipantData, Slate, Transaction, TxInput, TxProof};
use slate_broker::wallet::Wallet;

struct RecordingPublisher {
    posts: RefCell<Vec<(u64, String)>>,
}

impl RecordingPublisher {
    fn new() -> Self {
        RecordingPublisher { posts: RefCell::new(Vec::new()) }
    }
}

impl Publisher for RecordingPublisher {
    fn post_slate(&self, slate: &Slate, to: &Address) -> Result<(), Error> {
        self.posts.borrow_mut().push((slate.id, to.stripped()));
        Ok(())
    }
}

struct FailingPublisher;

impl Publisher for FailingPublisher {
    fn post_slate(&self, _slate: &Slate, _to: &Address) -> Result<(), Error> {
        Err(Error::TransportError)
    }
}

struct FailingReceiver;

impl SlateReceiver for FailingReceiver {
    fn receive_tx(
        &self,
        _slate: &Slate,
        _address: Option<&str>,
        _message: Option<&str>,
    ) -> Result<Slate, Error> {
        Err(Error::CapabilityError)
    }
}

struct FailingFinalizer;

impl SlateFinalizer for FailingFinalizer {
    fn finalize_tx(&self, _slate: &mut Slate) -> Result<(), Error> {
        Err(Error::CapabilityError)
    }
}

fn contribution(id: u64) -> ParticipantData {
    ParticipantData { id, public_blind_excess: id, public_nonce: id, part_sig: None }
}

fn two_party_slate() -> Slate {
    Slate {
        id: 7,
        num_participants: 2,
        participant_data: vec![contribution(1)],
        amount: 5_000_000_000,
        tx: Transaction { inputs: vec![TxInput { commit: 11 }], outputs: vec![] },
    }
}

#[test]
fn decision_rule_exact_values() {
    let mut s = two_party_slate();
    assert_eq!(decide_round(&s), RoundDecision::Receive);
    s.participant_data.push(contribution(2));
    assert_eq!(decide_round(&s), RoundDecision::Finalize);
    s.tx.inputs.clear();
    assert_eq!(decide_round(&s), RoundDecision::Finalize);
    s.participant_data.pop();
    assert_eq!(decide_round(&s), RoundDecision::Invoice);
    s.num_participants = 0;
    assert_eq!(decide_round(&s), RoundDecision::Reject);
}

#[test]
fn two_party_send_end_to_end() {
    // Party X built the slate with its own contribution and published it.
    let mut slate = two_party_slate();
    let from_x = Address::Grinbox { id: String::from("x_box") };
    let from_y = Address::Grinbox { id: String::from("y_box") };

    // Party Y: round-decision -> receive-side -> publish back to X.
    let pub_y = RecordingPublisher::new();
    let ctl_y = Controller::new("y_listener", Wallet::new(2), Wallet::new(2), pub_y)
        .expect("controller construction");
    let (events_y, out_y) = ctl_y.on_slate(&from_x, &mut slate, None);
    assert_eq!(out_y, Ok(false));
    assert_eq!(slate.participant_data.len(), 2);
    assert_eq!(slate.id, 7);
    assert_eq!(slate.num_participants, 2);
    assert_eq!(events_y.len(), 2);
    assert!(matches!(events_y[0], ProtocolEvent::SlateReceived { id: 7, back: false, .. }));
    assert!(matches!(events_y[1], ProtocolEvent::SlateSent { id: 7, .. }));

    // Party X: round-decision -> 2 == 2 -> finalize-side, no publish.
    let pub_x = RecordingPublisher::new();
    let ctl_x = Controller::new("x_listener", Wallet::new(1), Wallet::new(1), pub_x)
        .expect("controller construction");
    let (events_x, out_x) = ctl_x.on_slate(&from_y, &mut slate, None);
    assert_eq!(out_x, Ok(true));
    assert_eq!(slate.participant_data.len(), 2);
    assert!(slate.participant_data.iter().all(|p| p.part_sig.is_some()));
    assert_eq!(events_x.len(), 2);
    assert!(matches!(events_x[0], ProtocolEvent::SlateReceived { id: 7, back: true, .. }));
    assert!(matches!(events_x[1], ProtocolEvent::SlateFinalized { id: 7 }));
    assert!(!events_x.iter().any(|e| matches!(e, ProtocolEvent::SlateSent { .. })));
}

#[test]
fn zero_input_invoicing_is_unsupported() {
    let mut slate = two_party_slate();
    slate.tx.inputs.clear();
    let before = slate.participant_data.clone();
    let from = Address::Keybase { id: String::from("alice") };
    let publisher = RecordingPublisher::new();
    let ctl = Controller::new("inv_listener", Wallet::new(2), Wallet::new(2), publisher)
        .expect("controller construction");
    let (events, out) = ctl.on_slate(&from, &mut slate, None);
    assert_eq!(out, Err(Error::UnsupportedOperation));
    assert_eq!(slate.participant_data, before);
    assert_eq!(slate.participant_data.len(), 1);
    assert!(matches!(
        events[1],
        ProtocolEvent::ProcessingFailed { id: 7, cause: Error::UnsupportedOperation }
    ));
    assert!(!events.iter().any(|e| matches!(e, ProtocolEvent::SlateSent { .. })));
}

#[test]
fn publish_failure_surfaces_transport_error() {
    let mut slate = two_party_slate();
    let from = Address::Grinbox { id: String::from("x_box") };
    let ctl = Controller::new("p_listener", Wallet::new(2), Wallet::new(2), FailingPublisher)
        .expect("controller construction");
    let (events, out) = ctl.on_slate(&from, &mut slate, None);
    assert_eq!(out, Err(Error::TransportError));
    // The contribution was appended, but the slate was not marked sent.
    assert_eq!(slate.participant_data.len(), 2);
    assert!(matches!(events[1], ProtocolEvent::PublishFailed { id: 7, .. }));
    assert!(!events.iter().any(|e| matches!(e, ProtocolEvent::SlateSent { .. })));
    assert!(!events.iter().any(|e| matches!(e, ProtocolEvent::SlateFinalized { .. })));
}

#[test]
fn ill_formed_slate_is_a_protocol_violation() {
    let mut slate = two_party_slate();
    slate.num_participants = 0;
    let from = Address::Grinbox { id: String::from("x_box") };
    let ctl = Controller::new("v_listener", Wallet::new(2), Wallet::new(2), RecordingPublisher::new())
        .expect("controller construction");
    let (events, out) = ctl.on_slate(&from, &mut slate, None);
    assert_eq!(out, Err(Error::ProtocolViolation));
    assert_eq!(slate.participant_data.len(), 1);
    assert!(matches!(
        events[1],
        ProtocolEvent::ProcessingFailed { id: 7, cause: Error::ProtocolViolation }
    ));
}

#[test]
fn receive_capability_failure_leaves_slate_untouched() {
    let mut slate = two_party_slate();
    let before = slate.participant_data.clone();
    let from = Address::Grinbox { id: String::from("x_box") };
    let ctl = Controller::new("c_listener", FailingReceiver, Wallet::new(2), RecordingPublisher::new())
        .expect("controller construction");
    let (events, out) = ctl.on_slate(&from, &mut slate, None);
    assert_eq!(out, Err(Error::CapabilityError));
    assert_eq!(slate.participant_data, before);
    assert!(matches!(
        events[1],
        ProtocolEvent::ProcessingFailed { id: 7, cause: Error::CapabilityError }
    ));
}

#[test]
fn finalize_capability_failure_publishes_nothing() {
    let mut slate = two_party_slate();
    slate.participant_data.push(contribution(2));
    let from = Address::Grinbox { id: String::from("x_box") };
    let ctl = Controller::new("f_listener", Wallet::new(1), FailingFinalizer, RecordingPublisher::new())
        .expect("controller construction");
    let (events, out) = ctl.on_slate(&from, &mut slate, None);
    assert_eq!(out, Err(Error::CapabilityError));
    assert!(!events.iter().any(|e| matches!(e, ProtocolEvent::SlateSent { .. })));
    assert!(!events.iter().any(|e| matches!(e, ProtocolEvent::SlateFinalized { .. })));
}

#[test]
fn process_incoming_slate_direct_rounds() {
    let ctl = Controller::new("d_listener", Wallet::new(9), Wallet::new(9), RecordingPublisher::new())
        .expect("controller construction");

    let mut incomplete = two_party_slate();
    assert_eq!(ctl.process_incoming_slate(None, &mut incomplete, None), Ok(false));
    assert_eq!(incomplete.participant_data.len(), 2);
    assert_eq!(incomplete.participant_data[1].id, 9);

    let mut complete = incomplete;
    assert_eq!(ctl.process_incoming_slate(None, &mut complete, None), Ok(true));
    assert_eq!(complete.participant_data.len(), 2);
}

#[test]
fn proof_payload_is_carried_through() {
    let mut slate = two_party_slate();
    let proof = TxProof { sender: 1, receiver: 2, payload: vec![3, 4, 5] };
    let from = Address::Grinbox { id: String::from("x_box") };
    let ctl = Controller::new("t_listener", Wallet::new(2), Wallet::new(2), RecordingPublisher::new())
        .expect("controller construction");
    let (_events, out) = ctl.on_slate(&from, &mut slate, Some(&proof));
    assert_eq!(out, Ok(false));
    assert_eq!(proof.payload, vec![3, 4, 5]);
}

#[test]
fn lifecycle_callbacks_report_the_listener() {
    let ctl = Controller::new("main_box", Wallet::new(2), Wallet::new(2), RecordingPublisher::new())
        .expect("controller construction");
    let opened = ctl.on_open();
    assert_eq!(opened.len(), 1);
    assert!(matches!(&opened[0], ProtocolEvent::ListenerStarted { name } if name == "main_box"));
    let dropped = ctl.on_dropped();
    assert!(matches!(&dropped[0], ProtocolEvent::ConnectionDropped { name } if name == "main_box"));
    let back = ctl.on_reestablished();
    assert!(
        matches!(&back[0], ProtocolEvent::ConnectionReestablished { name } if name == "main_box")
    );
    let closed = ctl.on_close(CloseReason::Abnormal(Error::TransportError));
    assert!(matches!(
        &closed[0],
        ProtocolEvent::ListenerClosed { name, reason: CloseReason::Abnormal(Error::TransportError) }
            if name == "main_box"
    ));
}
