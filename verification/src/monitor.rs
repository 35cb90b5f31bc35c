//! The door monitor: the state machine that, after a valid code, opens the
//! lock, waits for the user, polls the reed sensor until the door has
//! genuinely closed again (with a grace re-check against sensor bounce), and
//! only then re-locks.
//!
//! The machine itself is a pure step function over states and observed
//! events; the worker that sleeps between phases performs the action each
//! state calls for and feeds the outcome back in.

use crate::doorlock::DoorLockTrait;
use vstd::prelude::*;

verus! {

/// Seconds the door is held open before the sensor is first consulted,
/// giving the user time to physically open it.
pub const HOLD_OPEN_SECS: u64 = 10;

/// Seconds between sensor polls while waiting for the door to close.
pub const POLL_INTERVAL_SECS: u64 = 1;

/// Seconds to wait after first observing the door closed before re-checking,
/// so a transient sensor bounce does not trigger a premature re-lock.
pub const GRACE_SECS: u64 = 3;

/// The states of one actuation-and-monitor cycle.
#[derive(Clone, Copy, PartialEq, Eq, Structural, Debug)]
pub enum MonitorState {
    /// The unlock sequence is being issued.
    Unlocking,
    /// The lock is open; dwell before consulting the sensor.
    HoldOpen,
    /// Polling the sensor until the door reports closed.
    WaitingForClose,
    /// The door reported closed once; waiting out the grace period before a
    /// confirming re-check.
    GraceCheck,
    /// The lock sequence is being issued.
    Locking,
    /// The cycle completed; the coordinator may start the next request.
    Done,
    /// A hardware fault aborted the cycle.
    Faulted,
}

/// What the worker observed while performing the current state's action.
#[derive(Clone, Copy, PartialEq, Eq, Structural, Debug)]
pub enum MonitorEvent {
    /// An unlock or lock sequence finished; the payload says whether it
    /// succeeded.
    ActuationDone(bool),
    /// The hold-open dwell elapsed.
    DwellElapsed,
    /// A sensor poll returned; the payload is whether the door is open.
    Polled(bool),
    /// The grace re-check returned; the payload is whether the door is open.
    Rechecked(bool),
    /// Reading the sensor failed.
    SensorFailed,
}

/// The action the worker must perform in a state to produce its next event.
#[derive(Clone, Copy, PartialEq, Eq, Structural, Debug)]
pub enum MonitorAction {
    /// Issue the unlock sequence.
    DoUnlock,
    /// Sleep out the hold-open dwell.
    SleepHoldDwell,
    /// Sleep one poll interval, then read the sensor.
    PollSensor,
    /// Sleep out the grace period, then read the sensor once more.
    GraceRecheck,
    /// Issue the lock sequence.
    DoLock,
    /// Terminal state: nothing to do.
    NoAction,
}

/// The transition function of the monitor.
pub open spec fn spec_step(s: MonitorState, e: MonitorEvent) -> MonitorState {
    match (s, e) {
        (MonitorState::Unlocking, MonitorEvent::ActuationDone(ok)) => if ok {
            MonitorState::HoldOpen
        } else {
            MonitorState::Faulted
        },
        (MonitorState::HoldOpen, MonitorEvent::DwellElapsed) => MonitorState::WaitingForClose,
        (MonitorState::WaitingForClose, MonitorEvent::Polled(open)) => if open {
            MonitorState::WaitingForClose
        } else {
            MonitorState::GraceCheck
        },
        (MonitorState::GraceCheck, MonitorEvent::Rechecked(open)) => if open {
            MonitorState::WaitingForClose
        } else {
            MonitorState::Locking
        },
        (MonitorState::Locking, MonitorEvent::ActuationDone(ok)) => if ok {
            MonitorState::Done
        } else {
            MonitorState::Faulted
        },
        (MonitorState::WaitingForClose, MonitorEvent::SensorFailed) => MonitorState::Faulted,
        (MonitorState::GraceCheck, MonitorEvent::SensorFailed) => MonitorState::Faulted,
        _ => s,
    }
}

/// Advances the monitor by one observed event.
pub fn step(s: MonitorState, e: MonitorEvent) -> (r: MonitorState)
    ensures
        r == spec_step(s, e),
{
    match (s, e) {
        (MonitorState::Unlocking, MonitorEvent::ActuationDone(ok)) => if ok {
            MonitorState::HoldOpen
        } else {
            MonitorState::Faulted
        },
        (MonitorState::HoldOpen, MonitorEvent::DwellElapsed) => MonitorState::WaitingForClose,
        (MonitorState::WaitingForClose, MonitorEvent::Polled(open)) => if open {
            MonitorState::WaitingForClose
        } else {
            MonitorState::GraceCheck
        },
        (MonitorState::GraceCheck, MonitorEvent::Rechecked(open)) => if open {
            MonitorState::WaitingForClose
        } else {
            MonitorState::Locking
        },
        (MonitorState::Locking, MonitorEvent::ActuationDone(ok)) => if ok {
            MonitorState::Done
        } else {
            MonitorState::Faulted
        },
        (MonitorState::WaitingForClose, MonitorEvent::SensorFailed) => MonitorState::Faulted,
        (MonitorState::GraceCheck, MonitorEvent::SensorFailed) => MonitorState::Faulted,
        (_, _) => s,
    }
}

/// What the worker does next in each state.
pub open spec fn spec_action_for(s: MonitorState) -> MonitorAction {
    match s {
        MonitorState::Unlocking => MonitorAction::DoUnlock,
        MonitorState::HoldOpen => MonitorAction::SleepHoldDwell,
        MonitorState::WaitingForClose => MonitorAction::PollSensor,
        MonitorState::GraceCheck => MonitorAction::GraceRecheck,
        MonitorState::Locking => MonitorAction::DoLock,
        MonitorState::Done => MonitorAction::NoAction,
        MonitorState::Faulted => MonitorAction::NoAction,
    }
}

/// The action the worker must perform in the given state.
pub fn action_for(s: MonitorState) -> (a: MonitorAction)
    ensures
        a == spec_action_for(s),
{
    match s {
        MonitorState::Unlocking => MonitorAction::DoUnlock,
        MonitorState::HoldOpen => MonitorAction::SleepHoldDwell,
        MonitorState::WaitingForClose => MonitorAction::PollSensor,
        MonitorState::GraceCheck => MonitorAction::GraceRecheck,
        MonitorState::Locking => MonitorAction::DoLock,
        MonitorState::Done => MonitorAction::NoAction,
        MonitorState::Faulted => MonitorAction::NoAction,
    }
}

/// The state reached from `s` after the whole event sequence `evs`.
pub open spec fn spec_run(s: MonitorState, evs: Seq<MonitorEvent>) -> MonitorState
    decreases evs.len(),
{
    if evs.len() == 0 {
        s
    } else {
        spec_run(spec_step(s, evs[0]), evs.skip(1))
    }
}

/// Every state the machine passes through from `s` under `evs`, starting
/// with `s` itself: `evs.len() + 1` states in all.
pub open spec fn spec_trace(s: MonitorState, evs: Seq<MonitorEvent>) -> Seq<MonitorState>
    decreases evs.len(),
{
    if evs.len() == 0 {
        seq![s]
    } else {
        seq![s] + spec_trace(spec_step(s, evs[0]), evs.skip(1))
    }
}

/// A trace holds one more state than there were events, and ends in the
/// state `spec_run` reaches.
pub proof fn lemma_trace_shape(s: MonitorState, evs: Seq<MonitorEvent>)
    ensures
        spec_trace(s, evs).len() == evs.len() + 1,
        spec_trace(s, evs)[0] == s,
        spec_trace(s, evs).last() == spec_run(s, evs),
    decreases evs.len(),
{
    if evs.len() > 0 {
        lemma_trace_shape(spec_step(s, evs[0]), evs.skip(1));
    }
}

/// While the sensor reports the door open on every poll, the machine stays
/// in `WaitingForClose` at every point: it never re-locks a door that is
/// physically open.
pub proof fn lemma_no_relock_while_open(evs: Seq<MonitorEvent>)
    requires
        forall|i: int| 0 <= i < evs.len() ==> evs[i] == MonitorEvent::Polled(true),
    ensures
        spec_run(MonitorState::WaitingForClose, evs) == MonitorState::WaitingForClose,
        forall|j: int|
            0 <= j < spec_trace(MonitorState::WaitingForClose, evs).len() ==> spec_trace(
                MonitorState::WaitingForClose,
                evs,
            )[j] == MonitorState::WaitingForClose,
    decreases evs.len(),
{
    if evs.len() > 0 {
        assert(evs[0] == MonitorEvent::Polled(true));
        assert(spec_step(MonitorState::WaitingForClose, evs[0]) == MonitorState::WaitingForClose);
        assert(forall|i: int| 0 <= i < evs.skip(1).len() ==> evs.skip(1)[i] == MonitorEvent::Polled(
            true,
        ));
        lemma_no_relock_while_open(evs.skip(1));
    }
}

/// A trace decomposes over a split of its event sequence: the tail trace
/// starts where the head trace ended.
pub proof fn lemma_trace_concat(s: MonitorState, a: Seq<MonitorEvent>, b: Seq<MonitorEvent>)
    ensures
        spec_trace(s, a + b) == spec_trace(s, a).drop_last() + spec_trace(spec_run(s, a), b),
    decreases a.len(),
{
    if a.len() == 0 {
        assert(a + b =~= b);
        assert(spec_trace(s, a).drop_last() =~= Seq::<MonitorState>::empty());
        assert(spec_trace(s, a).drop_last() + spec_trace(spec_run(s, a), b) =~= spec_trace(s, b));
    } else {
        let s1 = spec_step(s, a[0]);
        assert((a + b)[0] == a[0]);
        assert((a + b).skip(1) =~= a.skip(1) + b);
        lemma_trace_concat(s1, a.skip(1), b);
        lemma_trace_shape(s1, a.skip(1));
        assert(spec_trace(s, a).drop_last() =~= seq![s] + spec_trace(s1, a.skip(1)).drop_last());
        assert(spec_trace(s, a + b) == seq![s] + spec_trace(s1, a.skip(1) + b));
        assert(seq![s] + (spec_trace(s1, a.skip(1)).drop_last() + spec_trace(spec_run(s1, a.skip(1)), b))
            =~= (seq![s] + spec_trace(s1, a.skip(1)).drop_last()) + spec_trace(spec_run(s, a), b));
    }
}

/// Once a poll observes the door closed and the grace re-check confirms it,
/// the machine enters `Locking` exactly once and then reaches `Done` —
/// however long the door stood open beforehand.
pub proof fn lemma_close_then_lock_once(opens: Seq<MonitorEvent>)
    requires
        forall|i: int| 0 <= i < opens.len() ==> opens[i] == MonitorEvent::Polled(true),
    ensures
        ({
            let evs = opens + seq![
                MonitorEvent::Polled(false),
                MonitorEvent::Rechecked(false),
                MonitorEvent::ActuationDone(true),
            ];
            let tr = spec_trace(MonitorState::WaitingForClose, evs);
            &&& spec_run(MonitorState::WaitingForClose, evs) == MonitorState::Done
            &&& tr.filter(|st: MonitorState| st == MonitorState::Locking).len() == 1
        }),
{
    let tail = seq![
        MonitorEvent::Polled(false),
        MonitorEvent::Rechecked(false),
        MonitorEvent::ActuationDone(true),
    ];
    let evs = opens + tail;
    let w = MonitorState::WaitingForClose;
    lemma_no_relock_while_open(opens);
    lemma_trace_concat(w, opens, tail);
    lemma_trace_shape(w, opens);
    // The tail trace, step by step.
    reveal_with_fuel(spec_trace, 5);
    assert(tail.skip(1) =~= seq![
        MonitorEvent::Rechecked(false),
        MonitorEvent::ActuationDone(true),
    ]);
    assert(tail.skip(1).skip(1) =~= seq![MonitorEvent::ActuationDone(true)]);
    assert(tail.skip(1).skip(1).skip(1) =~= Seq::<MonitorEvent>::empty());
    let tail_trace = spec_trace(w, tail);
    assert(tail_trace =~= seq![
        MonitorState::WaitingForClose,
        MonitorState::GraceCheck,
        MonitorState::Locking,
        MonitorState::Done,
    ]);
    // The run ends at Done.
    lemma_trace_shape(w, evs);
    assert(spec_trace(w, evs).last() == MonitorState::Done);
    // Locking appears exactly once: never in the open prefix, once in the tail.
    let is_locking = |st: MonitorState| st == MonitorState::Locking;
    let head = spec_trace(w, opens).drop_last();
    assert(forall|j: int| 0 <= j < head.len() ==> head[j] == MonitorState::WaitingForClose);
    lemma_filter_none(head, is_locking);
    Seq::<MonitorState>::filter_distributes_over_add(head, tail_trace, is_locking);
    // Unfold the filter over the four-state tail trace: only `Locking` stays.
    reveal(Seq::filter);
    let t3 = tail_trace.drop_last();
    let t2 = t3.drop_last();
    assert(t2 =~= seq![MonitorState::WaitingForClose, MonitorState::GraceCheck]);
    lemma_filter_none(t2, is_locking);
    assert(t3.last() == MonitorState::Locking);
    assert(t3.filter(is_locking) == t2.filter(is_locking).push(MonitorState::Locking));
    assert(tail_trace.last() == MonitorState::Done);
    assert(tail_trace.filter(is_locking) == t3.filter(is_locking));
    assert(tail_trace.filter(is_locking).len() == 1);
    assert(spec_trace(w, evs).filter(is_locking).len() == 1);
}

/// One granted request drives one full cycle: after a successful unlock,
/// the hold-open dwell, any number of open polls, a confirmed close and a
/// successful lock, the trace from `Unlocking` holds exactly one
/// `Unlocking` state and exactly one `Locking` state — one unlock throw,
/// then one lock throw, never more — and the run ends at `Done`.
pub proof fn lemma_full_cycle_unlocks_once(opens: Seq<MonitorEvent>)
    requires
        forall|i: int| 0 <= i < opens.len() ==> opens[i] == MonitorEvent::Polled(true),
    ensures
        ({
            let evs = seq![MonitorEvent::ActuationDone(true), MonitorEvent::DwellElapsed] + (opens
                + seq![
                MonitorEvent::Polled(false),
                MonitorEvent::Rechecked(false),
                MonitorEvent::ActuationDone(true),
            ]);
            let tr = spec_trace(MonitorState::Unlocking, evs);
            &&& spec_run(MonitorState::Unlocking, evs) == MonitorState::Done
            &&& tr.filter(|st: MonitorState| st == MonitorState::Unlocking).len() == 1
            &&& tr.filter(|st: MonitorState| st == MonitorState::Locking).len() == 1
        }),
{
    let u = MonitorState::Unlocking;
    let w = MonitorState::WaitingForClose;
    let head_evs = seq![MonitorEvent::ActuationDone(true), MonitorEvent::DwellElapsed];
    let tail = seq![
        MonitorEvent::Polled(false),
        MonitorEvent::Rechecked(false),
        MonitorEvent::ActuationDone(true),
    ];
    let rest = opens + tail;
    let evs = head_evs + rest;
    // The first two events take the machine Unlocking -> HoldOpen ->
    // WaitingForClose.
    reveal_with_fuel(spec_trace, 5);
    reveal_with_fuel(spec_run, 5);
    assert(head_evs.skip(1) =~= seq![MonitorEvent::DwellElapsed]);
    assert(head_evs.skip(1).skip(1) =~= Seq::<MonitorEvent>::empty());
    assert(spec_run(u, head_evs) == w);
    assert(spec_trace(u, head_evs) =~= seq![u, MonitorState::HoldOpen, w]);
    lemma_trace_concat(u, head_evs, rest);
    let head_tr = spec_trace(u, head_evs).drop_last();
    assert(head_tr =~= seq![u, MonitorState::HoldOpen]);
    let w_tr = spec_trace(w, rest);
    assert(spec_trace(u, evs) == head_tr + w_tr);
    // The waiting part: all-open polls keep the machine in WaitingForClose,
    // then the confirmed close runs through GraceCheck and Locking to Done.
    lemma_no_relock_while_open(opens);
    lemma_trace_concat(w, opens, tail);
    lemma_trace_shape(w, opens);
    assert(tail.skip(1) =~= seq![MonitorEvent::Rechecked(false), MonitorEvent::ActuationDone(true)]);
    assert(tail.skip(1).skip(1) =~= seq![MonitorEvent::ActuationDone(true)]);
    assert(tail.skip(1).skip(1).skip(1) =~= Seq::<MonitorEvent>::empty());
    let tail_tr = spec_trace(w, tail);
    assert(tail_tr =~= seq![w, MonitorState::GraceCheck, MonitorState::Locking, MonitorState::Done]);
    let open_tr = spec_trace(w, opens).drop_last();
    assert(w_tr == open_tr + tail_tr);
    assert(forall|j: int| 0 <= j < open_tr.len() ==> open_tr[j] == w);
    // The run ends at Done.
    lemma_trace_shape(u, evs);
    lemma_trace_shape(w, rest);
    assert(w_tr.len() > 0);
    assert(spec_trace(u, evs).last() == w_tr.last());
    assert(w_tr.last() == tail_tr.last());
    assert(spec_run(u, evs) == MonitorState::Done);
    // The counts, part by part: the head holds the one Unlocking and no
    // Locking, the open polls hold neither, the tail holds the one Locking.
    let is_unlocking = |st: MonitorState| st == MonitorState::Unlocking;
    let is_locking = |st: MonitorState| st == MonitorState::Locking;
    Seq::<MonitorState>::filter_distributes_over_add(head_tr, w_tr, is_unlocking);
    Seq::<MonitorState>::filter_distributes_over_add(head_tr, w_tr, is_locking);
    Seq::<MonitorState>::filter_distributes_over_add(open_tr, tail_tr, is_unlocking);
    Seq::<MonitorState>::filter_distributes_over_add(open_tr, tail_tr, is_locking);
    lemma_filter_none(open_tr, is_unlocking);
    lemma_filter_none(open_tr, is_locking);
    reveal(Seq::filter);
    let t3 = tail_tr.drop_last();
    let t2 = t3.drop_last();
    assert(t2 =~= seq![w, MonitorState::GraceCheck]);
    lemma_filter_none(t2, is_locking);
    lemma_filter_none(t2, is_unlocking);
    assert(t3.last() == MonitorState::Locking);
    assert(t3.filter(is_locking) == t2.filter(is_locking).push(MonitorState::Locking));
    assert(t3.filter(is_unlocking) == t2.filter(is_unlocking));
    assert(tail_tr.last() == MonitorState::Done);
    assert(tail_tr.filter(is_locking) == t3.filter(is_locking));
    assert(tail_tr.filter(is_unlocking) == t3.filter(is_unlocking));
    let h1 = head_tr.drop_last();
    let h0 = h1.drop_last();
    assert(h1 =~= seq![u]);
    assert(h0 =~= Seq::<MonitorState>::empty());
    assert(h0.filter(is_unlocking).len() == 0);
    assert(h1.last() == u);
    assert(h1.filter(is_unlocking) == h0.filter(is_unlocking).push(u));
    assert(head_tr.last() == MonitorState::HoldOpen);
    assert(head_tr.filter(is_unlocking) == h1.filter(is_unlocking));
    lemma_filter_none(head_tr, is_locking);
    assert(spec_trace(u, evs).filter(is_unlocking).len() == 1);
    assert(spec_trace(u, evs).filter(is_locking).len() == 1);
}

/// Filtering keeps nothing of a sequence in which nothing satisfies the
/// predicate.
proof fn lemma_filter_none(s: Seq<MonitorState>, pred: spec_fn(MonitorState) -> bool)
    requires
        forall|j: int| 0 <= j < s.len() ==> !pred(s[j]),
    ensures
        s.filter(pred).len() == 0,
    decreases s.len(),
{
    reveal(Seq::filter);
    if s.len() > 0 {
        assert(s.drop_last().len() == s.len() - 1);
        lemma_filter_none(s.drop_last(), pred);
    }
}

/// Performs the current state's hardware action on `lock` and advances the
/// machine by the observed outcome. Sleeping between phases is the caller's
/// part; this function only acts and decides.
pub fn advance_with_lock<L: DoorLockTrait>(lock: &mut L, s: MonitorState) -> (r: MonitorState)
    ensures
        s == MonitorState::Unlocking ==> (r == MonitorState::HoldOpen || r
            == MonitorState::Faulted),
        s == MonitorState::HoldOpen ==> r == MonitorState::WaitingForClose,
        s == MonitorState::WaitingForClose ==> (r == MonitorState::WaitingForClose || r
            == MonitorState::GraceCheck || r == MonitorState::Faulted),
        s == MonitorState::GraceCheck ==> (r == MonitorState::WaitingForClose || r
            == MonitorState::Locking || r == MonitorState::Faulted),
        s == MonitorState::Locking ==> (r == MonitorState::Done || r == MonitorState::Faulted),
        s == MonitorState::Done ==> r == MonitorState::Done,
        s == MonitorState::Faulted ==> r == MonitorState::Faulted,
{
    match s {
        MonitorState::Unlocking => match lock.open() {
            Ok(_) => step(s, MonitorEvent::ActuationDone(true)),
            Err(_) => step(s, MonitorEvent::ActuationDone(false)),
        },
        MonitorState::HoldOpen => step(s, MonitorEvent::DwellElapsed),
        MonitorState::WaitingForClose => match lock.is_open() {
            Ok(open) => step(s, MonitorEvent::Polled(open)),
            Err(_) => step(s, MonitorEvent::SensorFailed),
        },
        MonitorState::GraceCheck => match lock.is_open() {
            Ok(open) => step(s, MonitorEvent::Rechecked(open)),
            Err(_) => step(s, MonitorEvent::SensorFailed),
        },
        MonitorState::Locking => match lock.close() {
            Ok(_) => step(s, MonitorEvent::ActuationDone(true)),
            Err(_) => step(s, MonitorEvent::ActuationDone(false)),
        },
        MonitorState::Done => MonitorState::Done,
        MonitorState::Faulted => MonitorState::Faulted,
    }
}

} // verus!
