use doorlock::coordinator::Coordinator;
use doorlock::doorlock::{DoorLockTrait, HardwareError};
use doorlock::keys::filter_keys;
use doorlock::monitor::{advance_with_lock, MonitorState};
use doorlock::validator::{process_request, AccessOutcome, PinCode};
use std::time::{SystemTime, UNIX_EPOCH};

const SECRET: &str = "JBSWY3DPEHPK3PXPJBSWY3DPEHPK3PXP";

fn current_code(key: &str) -> String {
    let now = SystemTime::now().duration_since(UNIX_EPOCH).unwrap().as_secs() as i64;
    let t = (now / 30) * 30 + 15;
    libreauth::oath::TOTPBuilder::new()
        .base32_key(key)
        .timestamp(t)
        .finalize()
        .unwrap()
        .generate()
}

/// A lock that records every driver call, to check that one granted request
/// produces exactly one unlock followed by exactly one lock, never
/// interleaved with another actuation.
struct RecordingLock {
    calls: Vec<&'static str>,
    open_polls_left: u32,
}

impl DoorLockTrait for RecordingLock {
    fn new() -> Self {
        RecordingLock { calls: Vec::new(), open_polls_left: 0 }
    }

    fn open(&mut self) -> Result<(), HardwareError> {
        self.calls.push("open");
        Ok(())
    }

    fn close(&mut self) -> Result<(), HardwareError> {
        self.calls.push("close");
        Ok(())
    }

    fn is_open(&self) -> Result<bool, HardwareError> {
        Ok(self.open_polls_left > 0)
    }
}

/// A lock whose unlock throw fails, to observe the fault path.
struct BrokenLock;

impl DoorLockTrait for BrokenLock {
    fn new() -> Self {
        BrokenLock
    }

    fn open(&mut self) -> Result<(), HardwareError> {
        Err(HardwareError::SignalWrite)
    }

    fn close(&mut self) -> Result<(), HardwareError> {
        Err(HardwareError::SignalWrite)
    }

    fn is_open(&self) -> Result<bool, HardwareError> {
        Err(HardwareError::SensorRead)
    }
}

#[test]
fn valid_code_drives_one_unlock_then_one_lock() {
    // Load the secret set the way startup does.
    let keys = filter_keys("JBSWY3DPEHPK3PXPJBSWY3DPEHPK3PXP\nnot-a-key");
    assert_eq!(keys.len(), 1);

    // A valid submission enqueues exactly one request.
    let mut coord = Coordinator::new(10);
    let code = current_code(SECRET);
    let outcome = process_request(&PinCode { number: code }, &keys, &mut coord);
    assert_eq!(outcome, AccessOutcome::Granted);
    assert_eq!(coord.pending_count(), 1);

    // The worker takes the one request and runs the full cycle: the door
    // stays open for three polls, then closes and stays closed.
    let req = coord.begin_cycle();
    assert!(req.is_some());
    let mut lock = RecordingLock::new();
    lock.open_polls_left = 3;
    let mut state = MonitorState::Unlocking;
    let mut steps = 0;
    while state != MonitorState::Done && state != MonitorState::Faulted {
        if state == MonitorState::WaitingForClose && lock.open_polls_left > 0 {
            lock.open_polls_left -= 1;
        }
        state = advance_with_lock(&mut lock, state);
        steps += 1;
        assert!(steps < 50);
    }
    coord.finish_cycle();

    assert_eq!(state, MonitorState::Done);
    assert_eq!(lock.calls, vec!["open", "close"]);
    assert_eq!(coord.pending_count(), 0);
    assert!(!coord.is_in_flight());
}

#[test]
fn hardware_fault_aborts_the_cycle() {
    let mut lock = BrokenLock::new();
    let state = advance_with_lock(&mut lock, MonitorState::Unlocking);
    assert_eq!(state, MonitorState::Faulted);
    // The terminal fault state absorbs further steps instead of retrying.
    let mut lock2 = BrokenLock::new();
    assert_eq!(
        advance_with_lock(&mut lock2, MonitorState::Faulted),
        MonitorState::Faulted
    );
}

#[test]
fn sensor_fault_while_waiting_aborts_the_cycle() {
    let mut lock = BrokenLock::new();
    assert_eq!(
        advance_with_lock(&mut lock, MonitorState::WaitingForClose),
        MonitorState::Faulted
    );
}

#[test]
fn accepted_requests_run_one_full_cycle_at_a_time() {
    // Three submissions against capacity two: exactly two accepted, one
    // rejected; the worker then runs each accepted cycle to Done before it
    // dequeues the next, so the driver calls never interleave.
    let mut coord = Coordinator::new(2);
    let mut accepted = 0;
    let mut rejected = 0;
    for _ in 0..3 {
        match coord.try_submit() {
            doorlock::coordinator::SubmitOutcome::Accepted => accepted += 1,
            doorlock::coordinator::SubmitOutcome::QueueSaturation => rejected += 1,
        }
    }
    assert_eq!(accepted, 2);
    assert_eq!(rejected, 1);

    let mut lock = RecordingLock::new();
    for cycle in 0..2 {
        assert!(!coord.is_in_flight());
        assert!(coord.begin_cycle().is_some());
        let mut state = MonitorState::Unlocking;
        let mut steps = 0;
        while state != MonitorState::Done && state != MonitorState::Faulted {
            state = advance_with_lock(&mut lock, state);
            steps += 1;
            assert!(steps < 50);
        }
        // The cycle reached its end before the next request is dequeued.
        assert_eq!(state, MonitorState::Done);
        assert_eq!(lock.calls.len(), 2 * (cycle + 1));
        coord.finish_cycle();
    }
    assert_eq!(lock.calls, vec!["open", "close", "open", "close"]);
    assert!(coord.begin_cycle().is_none());
}
