//! The listener lifecycle: the state machine a transport subscriber walks
//! through, the ordering contract of its callbacks, and a verified model of
//! one listener that keeps every undelivered message across a disconnect
//! and hands each message out exactly once.

use vstd::prelude::*;
use vstd::assert_by_contradiction;

verus! {

/// The lifecycle states of a transport listener.
#[derive(Clone, Copy, PartialEq, Eq, Structural, Debug)]
pub enum ListenerState {
    /// Not listening: never started, or terminally closed.
    Stopped,
    /// Start was requested; the initial connect is under way.
    Starting,
    /// Connected and serving.
    Running,
    /// Connection lost; reconnection attempts run in the background.
    Dropped,
}

/// One lifecycle callback, as a subscriber drives them on its handler.
#[derive(Clone, Copy, PartialEq, Eq, Structural, Debug)]
pub enum LifecycleEvent {
    /// `on_open`: the initial connect succeeded.
    Opened,
    /// `on_dropped`: the connection was lost.
    Dropped,
    /// `on_reestablished`: the connection was restored.
    Reestablished,
    /// `on_close`: the listener ended, normally or abnormally.
    Closed,
}

/// Where a callback trace leaves a listener: not yet opened, live, inside
/// a disconnect window, or terminally closed.
#[derive(Clone, Copy, PartialEq, Eq, Structural, Debug)]
pub enum LifecyclePhase {
    Idle,
    Live,
    Interrupted,
    Done,
}

/// The callback ordering contract, one step at a time: which callback may
/// fire in which phase, and where it leaves the listener. `None` marks a
/// callback the contract forbids there.
pub open spec fn phase_step(p: LifecyclePhase, e: LifecycleEvent) -> Option<LifecyclePhase> {
    match (p, e) {
        (LifecyclePhase::Idle, LifecycleEvent::Opened) => Some(LifecyclePhase::Live),
        (LifecyclePhase::Live, LifecycleEvent::Dropped) => Some(LifecyclePhase::Interrupted),
        (LifecyclePhase::Interrupted, LifecycleEvent::Reestablished) => Some(LifecyclePhase::Live),
        (LifecyclePhase::Live, LifecycleEvent::Closed) => Some(LifecyclePhase::Done),
        (LifecyclePhase::Interrupted, LifecycleEvent::Closed) => Some(LifecyclePhase::Done),
        _ => None,
    }
}

/// The phase a whole callback trace ends in, or `None` for a trace the
/// ordering contract forbids: `Opened` once and first, `Dropped` and
/// `Reestablished` in bracketing pairs, one terminal `Closed`.
pub open spec fn trace_phase(t: Seq<LifecycleEvent>) -> Option<LifecyclePhase>
    decreases t.len(),
{
    if t.len() == 0 {
        Some(LifecyclePhase::Idle)
    } else {
        match trace_phase(t.drop_last()) {
            Some(p) => phase_step(p, t.last()),
            None => None,
        }
    }
}

/// The trace respects the callback ordering contract.
pub open spec fn valid_trace(t: Seq<LifecycleEvent>) -> bool {
    trace_phase(t) is Some
}

/// Appending one callback steps the trace's phase by `phase_step`.
pub proof fn lemma_trace_phase_push(t: Seq<LifecycleEvent>, e: LifecycleEvent)
    ensures
        trace_phase(t.push(e)) == match trace_phase(t) {
            Some(p) => phase_step(p, e),
            None => None,
        },
{
    assert(t.push(e).drop_last() =~= t);
    assert(t.push(e).last() == e);
}

/// Every prefix of a valid trace is valid.
pub proof fn lemma_prefix_valid(t: Seq<LifecycleEvent>, m: int)
    requires
        valid_trace(t),
        0 <= m <= t.len(),
    ensures
        trace_phase(t.take(m)) is Some,
    decreases t.len() - m,
{
    if m == t.len() {
        assert(t.take(m) =~= t);
    } else {
        lemma_prefix_valid(t, m + 1);
        assert(t.take(m + 1).drop_last() =~= t.take(m));
        assert(trace_phase(t.take(m + 1)) == match trace_phase(t.take(m)) {
            Some(p) => phase_step(p, t.take(m + 1).last()),
            None => None,
        });
    }
}

/// After a drop at `i` with no reestablishment up to `j`, a valid trace is
/// still interrupted (or already closed) just before `j`.
proof fn lemma_still_interrupted(t: Seq<LifecycleEvent>, i: int, j: int)
    requires
        valid_trace(t),
        0 <= i < j <= t.len(),
        t[i] is Dropped,
        forall|k: int| i < k < j ==> !(#[trigger] t[k] is Reestablished),
    ensures
        trace_phase(t.take(j)) == Some(LifecyclePhase::Interrupted) || trace_phase(t.take(j))
            == Some(LifecyclePhase::Done),
    decreases j - i,
{
    if j == i + 1 {
        lemma_prefix_valid(t, j);
        assert(t.take(j).drop_last() =~= t.take(i));
        assert(t.take(j).last() == t[i]);
    } else {
        lemma_still_interrupted(t, i, j - 1);
        lemma_prefix_valid(t, j);
        assert(t.take(j).drop_last() =~= t.take(j - 1));
        assert(t.take(j).last() == t[j - 1]);
        assert(!(t[j - 1] is Reestablished));
    }
}

/// The bracketing law of the callback contract: in a valid trace, a second
/// `on_dropped` never fires after an earlier one without an intervening
/// `on_reestablished`.
pub proof fn lemma_no_double_drop(t: Seq<LifecycleEvent>, i: int, j: int)
    requires
        valid_trace(t),
        0 <= i < j < t.len(),
        t[i] is Dropped,
        t[j] is Dropped,
    ensures
        exists|k: int| i < k < j && (#[trigger] t[k]) is Reestablished,
{
    assert_by_contradiction!(exists|k: int| i < k < j && (#[trigger] t[k]) is Reestablished, {
        lemma_still_interrupted(t, i, j);
        lemma_prefix_valid(t, j + 1);
        assert(t.take(j + 1).drop_last() =~= t.take(j));
        assert(t.take(j + 1).last() == t[j]);
    });
}

/// A trace can only be in the un-opened phase before its first callback:
/// no callback step leads back to it.
proof fn lemma_idle_only_at_start(t: Seq<LifecycleEvent>, m: int)
    requires
        valid_trace(t),
        0 <= m <= t.len(),
        trace_phase(t.take(m)) == Some(LifecyclePhase::Idle),
    ensures
        m == 0,
{
    if m > 0 {
        lemma_prefix_valid(t, m - 1);
        assert(t.take(m).drop_last() =~= t.take(m - 1));
        assert(t.take(m).last() == t[m - 1]);
    }
}

/// The opening law of the callback contract: in a valid trace, `on_open`
/// fires only as the very first callback — so at most once.
pub proof fn lemma_open_is_first(t: Seq<LifecycleEvent>, i: int)
    requires
        valid_trace(t),
        0 <= i < t.len(),
        t[i] is Opened,
    ensures
        i == 0,
{
    lemma_prefix_valid(t, i);
    lemma_prefix_valid(t, i + 1);
    assert(t.take(i + 1).drop_last() =~= t.take(i));
    assert(t.take(i + 1).last() == t[i]);
    lemma_idle_only_at_start(t, i);
}

/// The terminal law of the callback contract: in a valid trace, `on_close`
/// fires only as the very last callback — so exactly once, at the end.
pub proof fn lemma_close_is_last(t: Seq<LifecycleEvent>, i: int)
    requires
        valid_trace(t),
        0 <= i < t.len(),
        t[i] is Closed,
    ensures
        i == t.len() - 1,
{
    if i < t.len() - 1 {
        lemma_prefix_valid(t, i);
        lemma_prefix_valid(t, i + 1);
        assert(t.take(i + 1).drop_last() =~= t.take(i));
        assert(t.take(i + 1).last() == t[i]);
        assert(trace_phase(t.take(i + 1)) == Some(LifecyclePhase::Done));
        lemma_prefix_valid(t, i + 2);
        assert(t.take(i + 2).drop_last() =~= t.take(i + 1));
        assert(t.take(i + 2).last() == t[i + 1]);
    }
}

/// A verified model of one transport listener: its lifecycle state, the
/// callbacks it has fired, the messages the transport still holds for it,
/// and the messages it has handed to its handler. The embedding program's
/// connect/receive loop performs the I/O and feeds this model, which
/// decides and records: a disconnect keeps every undelivered message, and
/// delivery hands each enqueued message out exactly once, in order.
pub struct SubscriberModel {
    /// Current lifecycle state.
    pub state: ListenerState,
    /// Lifecycle callbacks fired so far, in order.
    pub trace: Vec<LifecycleEvent>,
    /// Identifiers of messages the transport holds undelivered, in order.
    pub pending: Vec<u64>,
    /// Identifiers of messages handed to the handler, in order.
    pub delivered: Vec<u64>,
    /// Every message ever enqueued, in order.
    pub enqueued: Ghost<Seq<u64>>,
}

impl SubscriberModel {
    /// The model's invariant: the callback trace is valid and matches the
    /// state, and every enqueued message is either delivered or pending —
    /// none is lost, none is handed out twice.
    pub open spec fn wf(self) -> bool {
        &&& self.enqueued@ == self.delivered@ + self.pending@
        &&& match self.state {
            ListenerState::Stopped => trace_phase(self.trace@) == Some(LifecyclePhase::Idle)
                || trace_phase(self.trace@) == Some(LifecyclePhase::Done),
            ListenerState::Starting => trace_phase(self.trace@) == Some(LifecyclePhase::Idle),
            ListenerState::Running => trace_phase(self.trace@) == Some(LifecyclePhase::Live),
            ListenerState::Dropped => trace_phase(self.trace@) == Some(
                LifecyclePhase::Interrupted,
            ),
        }
    }

    /// A fresh listener: stopped, with nothing fired, held or delivered.
    pub fn new() -> (m: SubscriberModel)
        ensures
            m.wf(),
            m.state is Stopped,
            m.trace@.len() == 0,
            m.pending@.len() == 0,
            m.delivered@.len() == 0,
            m.enqueued@.len() == 0,
    {
        SubscriberModel {
            state: ListenerState::Stopped,
            trace: Vec::new(),
            pending: Vec::new(),
            delivered: Vec::new(),
            enqueued: Ghost(Seq::empty()),
        }
    }

    /// Whether the listener is currently serving: running after a connect,
    /// and not inside a disconnect window.
    pub fn is_running(&self) -> (r: bool)
        ensures
            r == (self.state is Running),
    {
        match self.state {
            ListenerState::Running => true,
            _ => false,
        }
    }

    /// Request a start on a listener that never ran: the connect begins.
    pub fn start(&mut self)
        requires
            old(self).wf(),
            old(self).state is Stopped,
            old(self).trace@.len() == 0,
        ensures
            final(self).wf(),
            final(self).state is Starting,
            final(self).trace@ == old(self).trace@,
            final(self).pending@ == old(self).pending@,
            final(self).delivered@ == old(self).delivered@,
            final(self).enqueued@ == old(self).enqueued@,
    {
        self.state = ListenerState::Starting;
    }

    /// The initial connect succeeded: `on_open` fires, the listener runs.
    pub fn connected(&mut self)
        requires
            old(self).wf(),
            old(self).state is Starting,
        ensures
            final(self).wf(),
            final(self).state is Running,
            final(self).trace@ == old(self).trace@.push(LifecycleEvent::Opened),
            final(self).pending@ == old(self).pending@,
            final(self).delivered@ == old(self).delivered@,
            final(self).enqueued@ == old(self).enqueued@,
    {
        proof {
            lemma_trace_phase_push(self.trace@, LifecycleEvent::Opened);
        }
        self.trace.push(LifecycleEvent::Opened);
        self.state = ListenerState::Running;
    }

    /// The initial connect failed: no callback fires, the listener stays
    /// stopped.
    pub fn connect_failed(&mut self)
        requires
            old(self).wf(),
            old(self).state is Starting,
        ensures
            final(self).wf(),
            final(self).state is Stopped,
            final(self).trace@ == old(self).trace@,
            final(self).pending@ == old(self).pending@,
            final(self).delivered@ == old(self).delivered@,
            final(self).enqueued@ == old(self).enqueued@,
    {
        self.state = ListenerState::Stopped;
    }

    /// The connection was lost while running: `on_dropped` fires, and every
    /// undelivered message stays held for after the reconnect.
    pub fn connection_dropped(&mut self)
        requires
            old(self).wf(),
            old(self).state is Running,
        ensures
            final(self).wf(),
            final(self).state is Dropped,
            final(self).trace@ == old(self).trace@.push(LifecycleEvent::Dropped),
            final(self).pending@ == old(self).pending@,
            final(self).delivered@ == old(self).delivered@,
            final(self).enqueued@ == old(self).enqueued@,
    {
        proof {
            lemma_trace_phase_push(self.trace@, LifecycleEvent::Dropped);
        }
        self.trace.push(LifecycleEvent::Dropped);
        self.state = ListenerState::Dropped;
    }

    /// The connection came back: `on_reestablished` fires, and the messages
    /// held across the disconnect are exactly those held before it.
    pub fn connection_reestablished(&mut self)
        requires
            old(self).wf(),
            old(self).state is Dropped,
        ensures
            final(self).wf(),
            final(self).state is Running,
            final(self).trace@ == old(self).trace@.push(LifecycleEvent::Reestablished),
            final(self).pending@ == old(self).pending@,
            final(self).delivered@ == old(self).delivered@,
            final(self).enqueued@ == old(self).enqueued@,
    {
        proof {
            lemma_trace_phase_push(self.trace@, LifecycleEvent::Reestablished);
        }
        self.trace.push(LifecycleEvent::Reestablished);
        self.state = ListenerState::Running;
    }

    /// The listener ends, intentionally or on a permanent transport error:
    /// the terminal `on_close` fires.
    pub fn close(&mut self)
        requires
            old(self).wf(),
            old(self).state is Running || old(self).state is Dropped,
        ensures
            final(self).wf(),
            final(self).state is Stopped,
            final(self).trace@ == old(self).trace@.push(LifecycleEvent::Closed),
            final(self).pending@ == old(self).pending@,
            final(self).delivered@ == old(self).delivered@,
            final(self).enqueued@ == old(self).enqueued@,
    {
        proof {
            lemma_trace_phase_push(self.trace@, LifecycleEvent::Closed);
        }
        self.trace.push(LifecycleEvent::Closed);
        self.state = ListenerState::Stopped;
    }

    /// The transport accepted one more inbound message for this listener.
    pub fn enqueue(&mut self, id: u64)
        requires
            old(self).wf(),
        ensures
            final(self).wf(),
            final(self).state == old(self).state,
            final(self).trace@ == old(self).trace@,
            final(self).pending@ == old(self).pending@.push(id),
            final(self).delivered@ == old(self).delivered@,
            final(self).enqueued@ == old(self).enqueued@.push(id),
    {
        self.pending.push(id);
        proof {
            self.enqueued@ = self.enqueued@.push(id);
            assert(self.enqueued@ =~= self.delivered@ + self.pending@);
        }
    }

    /// Hand the oldest undelivered message to the handler; only a running
    /// listener delivers. Each enqueued message is handed out at most once:
    /// it moves from `pending` to `delivered` and to no other place.
    pub fn deliver_next(&mut self) -> (r: Option<u64>)
        requires
            old(self).wf(),
            old(self).state is Running,
        ensures
            final(self).wf(),
            final(self).state == old(self).state,
            final(self).trace@ == old(self).trace@,
            final(self).enqueued@ == old(self).enqueued@,
            match r {
                Some(id) => old(self).pending@.len() > 0 && id == old(self).pending@[0]
                    && final(self).pending@ == old(self).pending@.skip(1)
                    && final(self).delivered@ == old(self).delivered@.push(id),
                None => old(self).pending@.len() == 0
                    && final(self).pending@ == old(self).pending@
                    && final(self).delivered@ == old(self).delivered@,
            },
    {
        if self.pending.len() == 0 {
            None
        } else {
            let id = self.pending.remove(0);
            self.delivered.push(id);
            proof {
                assert(self.pending@ =~= old(self).pending@.skip(1));
                assert(self.enqueued@ =~= self.delivered@ + self.pending@);
            }
            Some(id)
        }
    }
}

} // verus!
