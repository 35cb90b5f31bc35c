//! The actuation coordinator: a bounded FIFO queue of open requests fed by
//! many concurrent submitters, consumed by exactly one worker. Submission
//! never blocks — a full queue rejects the request — and the worker runs one
//! actuation-and-monitor cycle at a time, so at most one cycle is ever in
//! flight.

use vstd::prelude::*;

verus! {

/// A request to perform one full unlock-wait-relock cycle.
#[derive(Clone, Copy, PartialEq, Eq, Structural, Debug)]
pub struct Open;

/// Default capacity of the request queue.
pub const QUEUE_CAPACITY: usize = 10;

/// The outcome of submitting an actuation request.
#[derive(Clone, Copy, PartialEq, Eq, Structural, Debug)]
pub enum SubmitOutcome {
    /// The request was queued and will run, in submission order.
    Accepted,
    /// The queue was full; the request was dropped as back-pressure.
    QueueSaturation,
}

/// The coordinator's queue and worker occupancy. The worker holds the one
/// handle to the physical lock; this state only decides when it may run.
pub struct Coordinator {
    pending: Vec<Open>,
    capacity: usize,
    in_flight: bool,
}

/// How many of `n` submissions a fresh queue of capacity `k` accepts: each
/// submission is accepted exactly when the queue is not yet full, and every
/// accepted one stays queued.
pub open spec fn spec_accepts(n: nat, k: nat) -> nat
    decreases n,
{
    if n == 0 {
        0
    } else {
        let prev = spec_accepts((n - 1) as nat, k);
        if prev < k {
            prev + 1
        } else {
            prev
        }
    }
}

/// Of `n` requests submitted to a fresh queue of capacity `k`, exactly
/// `min(n, k)` are accepted and the remaining `n - min(n, k)` are rejected
/// with saturation.
pub proof fn lemma_saturation_counts(n: nat, k: nat)
    ensures
        spec_accepts(n, k) == if n <= k {
            n
        } else {
            k
        },
        n - spec_accepts(n, k) == if n <= k {
            0
        } else {
            n - k
        },
    decreases n,
{
    if n > 0 {
        lemma_saturation_counts((n - 1) as nat, k);
    }
}

impl Coordinator {
    /// The queue never holds more requests than its capacity.
    pub closed spec fn wf(self) -> bool {
        self.pending@.len() <= self.capacity
    }

    /// How many requests are queued.
    pub closed spec fn spec_pending(self) -> nat {
        self.pending@.len()
    }

    /// The queue's capacity.
    pub closed spec fn spec_capacity(self) -> nat {
        self.capacity as nat
    }

    /// Whether an actuation cycle is currently running.
    pub closed spec fn spec_in_flight(self) -> bool {
        self.in_flight
    }

    /// An empty, idle coordinator with the given queue capacity.
    pub fn new(capacity: usize) -> (r: Self)
        ensures
            r.wf(),
            r.spec_pending() == 0,
            r.spec_capacity() == capacity,
            !r.spec_in_flight(),
    {
        Coordinator { pending: Vec::new(), capacity, in_flight: false }
    }

    /// How many requests are queued.
    pub fn pending_count(&self) -> (r: usize)
        ensures
            r == self.spec_pending(),
    {
        self.pending.len()
    }

    /// Whether a cycle is currently running.
    pub fn is_in_flight(&self) -> (r: bool)
        ensures
            r == self.spec_in_flight(),
    {
        self.in_flight
    }

    /// Submits one actuation request without blocking: accepted exactly when
    /// the queue has room, rejected with saturation when it is full. A
    /// rejection leaves the coordinator untouched.
    pub fn try_submit(&mut self) -> (r: SubmitOutcome)
        requires
            old(self).wf(),
        ensures
            final(self).wf(),
            final(self).spec_capacity() == old(self).spec_capacity(),
            final(self).spec_in_flight() == old(self).spec_in_flight(),
            r == SubmitOutcome::Accepted <==> old(self).spec_pending() < old(
                self,
            ).spec_capacity(),
            r == SubmitOutcome::Accepted ==> final(self).spec_pending() == old(self).spec_pending()
                + 1,
            r == SubmitOutcome::QueueSaturation ==> final(self).spec_pending() == old(
                self,
            ).spec_pending() && old(self).spec_pending() == old(self).spec_capacity(),
    {
        if self.pending.len() < self.capacity {
            self.pending.push(Open);
            SubmitOutcome::Accepted
        } else {
            SubmitOutcome::QueueSaturation
        }
    }

    /// Takes the oldest queued request and marks its cycle as running. May
    /// only be called while no cycle is in flight, so cycles can never
    /// overlap; returns nothing when the queue is empty.
    pub fn begin_cycle(&mut self) -> (r: Option<Open>)
        requires
            old(self).wf(),
            !old(self).spec_in_flight(),
        ensures
            final(self).wf(),
            final(self).spec_capacity() == old(self).spec_capacity(),
            r is Some <==> old(self).spec_pending() > 0,
            r is Some ==> final(self).spec_pending() == old(self).spec_pending() - 1
                && final(self).spec_in_flight(),
            r is None ==> final(self).spec_pending() == 0 && !final(self).spec_in_flight(),
    {
        if self.pending.len() > 0 {
            let req = self.pending.remove(0);
            self.in_flight = true;
            Some(req)
        } else {
            None
        }
    }

    /// Marks the running cycle finished, letting the worker begin the next
    /// queued request.
    pub fn finish_cycle(&mut self)
        requires
            old(self).wf(),
            old(self).spec_in_flight(),
        ensures
            final(self).wf(),
            final(self).spec_capacity() == old(self).spec_capacity(),
            final(self).spec_pending() == old(self).spec_pending(),
            !final(self).spec_in_flight(),
    {
        self.in_flight = false;
    }
}

} // verus!
