use slate_broker::lifecycle::{LifecycleEvent, ListenerState, SubscriberModel};
use slate_broker::session::FinalizeGuard;
use slate_broker::error::Error;

#[test]
fn drop_and_reestablish_keep_every_message() {
    let mut m = SubscriberModel::new();
    assert!(!m.is_running());
    m.start();
    assert_eq!(m.state, ListenerState::Starting);
    m.connected();
    assert!(m.is_running());

    m.enqueue(1);
    m.enqueue(2);
    assert_eq!(m.deliver_next(), Some(1));

    // The transport drops mid-stream; the undelivered message stays held.
    let held_before = m.pending.clone();
    m.connection_dropped();
    assert!(!m.is_running());
    assert_eq!(m.state, ListenerState::Dropped);
    m.enqueue(3);

    m.connection_reestablished();
    assert!(m.is_running());
    assert_eq!(&m.pending[..held_before.len()], &held_before[..]);

    // Every message comes out exactly once, in order, none lost.
    assert_eq!(m.deliver_next(), Some(2));
    assert_eq!(m.deliver_next(), Some(3));
    assert_eq!(m.deliver_next(), None);
    assert_eq!(m.delivered, vec![1, 2, 3]);

    m.close();
    assert!(!m.is_running());
    assert_eq!(
        m.trace,
        vec![
            LifecycleEvent::Opened,
            LifecycleEvent::Dropped,
            LifecycleEvent::Reestablished,
            LifecycleEvent::Closed,
        ]
    );
}

#[test]
fn connect_failure_fires_no_callback() {
    let mut m = SubscriberModel::new();
    m.start();
    m.connect_failed();
    assert_eq!(m.state, ListenerState::Stopped);
    assert!(m.trace.is_empty());
}

#[test]
fn delivery_is_in_arrival_order() {
    let mut m = SubscriberModel::new();
    m.start();
    m.connected();
    for id in [10, 20, 30] {
        m.enqueue(id);
    }
    assert_eq!(m.deliver_next(), Some(10));
    assert_eq!(m.deliver_next(), Some(20));
    assert_eq!(m.deliver_next(), Some(30));
    assert_eq!(m.deliver_next(), None);
}

#[test]
fn replayed_finalization_is_refused() {
    let mut guard = FinalizeGuard::new();
    assert!(!guard.is_finalized(42));
    assert_eq!(guard.record_finalized(42), Ok(()));
    assert!(guard.is_finalized(42));
    // Redelivery after a reconnect: the second attempt must not finalize
    // again; it must surface a detectable reported condition.
    assert_eq!(guard.record_finalized(42), Err(Error::ProtocolViolation));
    assert_eq!(guard.finalized, vec![42]);
    assert_eq!(guard.record_finalized(43), Ok(()));
    assert_eq!(guard.finalized, vec![42, 43]);
}
