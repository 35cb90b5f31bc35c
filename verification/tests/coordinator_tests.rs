use doorlock::coordinator::{Coordinator, SubmitOutcome, QUEUE_CAPACITY};

#[test]
fn fresh_coordinator_is_empty_and_idle() {
    let c = Coordinator::new(QUEUE_CAPACITY);
    assert_eq!(c.pending_count(), 0);
    assert!(!c.is_in_flight());
}

#[test]
fn saturation_accepts_capacity_and_rejects_the_rest() {
    // 15 concurrent submissions against capacity 10: exactly 10 accepted,
    // 5 rejected with saturation.
    let mut c = Coordinator::new(QUEUE_CAPACITY);
    let mut accepted = 0;
    let mut rejected = 0;
    for _ in 0..15 {
        match c.try_submit() {
            SubmitOutcome::Accepted => accepted += 1,
            SubmitOutcome::QueueSaturation => rejected += 1,
        }
    }
    assert_eq!(accepted, 10);
    assert_eq!(rejected, 5);
    assert_eq!(c.pending_count(), 10);
}

#[test]
fn accepted_requests_drain_one_at_a_time() {
    let mut c = Coordinator::new(3);
    for _ in 0..3 {
        assert_eq!(c.try_submit(), SubmitOutcome::Accepted);
    }
    for remaining in (0..3).rev() {
        let req = c.begin_cycle();
        assert!(req.is_some());
        assert!(c.is_in_flight());
        assert_eq!(c.pending_count(), remaining);
        c.finish_cycle();
        assert!(!c.is_in_flight());
    }
    assert!(c.begin_cycle().is_none());
    assert!(!c.is_in_flight());
}

#[test]
fn rejection_leaves_queue_unchanged() {
    let mut c = Coordinator::new(1);
    assert_eq!(c.try_submit(), SubmitOutcome::Accepted);
    assert_eq!(c.try_submit(), SubmitOutcome::QueueSaturation);
    assert_eq!(c.pending_count(), 1);
}

#[test]
fn drained_queue_accepts_again() {
    let mut c = Coordinator::new(1);
    assert_eq!(c.try_submit(), SubmitOutcome::Accepted);
    assert_eq!(c.try_submit(), SubmitOutcome::QueueSaturation);
    assert!(c.begin_cycle().is_some());
    c.finish_cycle();
    assert_eq!(c.try_submit(), SubmitOutcome::Accepted);
}

#[test]
fn zero_capacity_queue_rejects_immediately() {
    let mut c = Coordinator::new(0);
    assert_eq!(c.try_submit(), SubmitOutcome::QueueSaturation);
    assert_eq!(c.pending_count(), 0);
}
