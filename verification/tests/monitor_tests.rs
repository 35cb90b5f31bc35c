use doorlock::doorlock::DoorLock as SoftLock;
use doorlock::doorlock::DoorLockTrait;
use doorlock::monitor::{action_for, advance_with_lock, step, MonitorAction, MonitorEvent,
    MonitorState};

#[test]
fn unlock_outcome_decides_hold_or_fault() {
    assert_eq!(
        step(MonitorState::Unlocking, MonitorEvent::ActuationDone(true)),
        MonitorState::HoldOpen
    );
    assert_eq!(
        step(MonitorState::Unlocking, MonitorEvent::ActuationDone(false)),
        MonitorState::Faulted
    );
}

#[test]
fn hold_open_ends_with_dwell() {
    assert_eq!(
        step(MonitorState::HoldOpen, MonitorEvent::DwellElapsed),
        MonitorState::WaitingForClose
    );
}

#[test]
fn open_door_keeps_waiting() {
    let mut s = MonitorState::WaitingForClose;
    for _ in 0..100 {
        s = step(s, MonitorEvent::Polled(true));
        assert_eq!(s, MonitorState::WaitingForClose);
        assert_ne!(s, MonitorState::Locking);
    }
}

#[test]
fn closed_door_enters_grace_check() {
    assert_eq!(
        step(MonitorState::WaitingForClose, MonitorEvent::Polled(false)),
        MonitorState::GraceCheck
    );
}

#[test]
fn reopened_door_returns_to_waiting() {
    assert_eq!(
        step(MonitorState::GraceCheck, MonitorEvent::Rechecked(true)),
        MonitorState::WaitingForClose
    );
}

#[test]
fn confirmed_close_locks_exactly_once_then_done() {
    let events = [
        MonitorEvent::Polled(true),
        MonitorEvent::Polled(true),
        MonitorEvent::Polled(false),
        MonitorEvent::Rechecked(false),
        MonitorEvent::ActuationDone(true),
    ];
    let mut s = MonitorState::WaitingForClose;
    let mut locking_seen = 0;
    for e in events {
        s = step(s, e);
        if s == MonitorState::Locking {
            locking_seen += 1;
        }
    }
    assert_eq!(locking_seen, 1);
    assert_eq!(s, MonitorState::Done);
}

#[test]
fn lock_failure_faults_the_cycle() {
    assert_eq!(
        step(MonitorState::Locking, MonitorEvent::ActuationDone(false)),
        MonitorState::Faulted
    );
}

#[test]
fn terminal_states_absorb_events() {
    assert_eq!(step(MonitorState::Done, MonitorEvent::Polled(true)), MonitorState::Done);
    assert_eq!(
        step(MonitorState::Faulted, MonitorEvent::DwellElapsed),
        MonitorState::Faulted
    );
}

#[test]
fn actions_per_state() {
    assert_eq!(action_for(MonitorState::Unlocking), MonitorAction::DoUnlock);
    assert_eq!(action_for(MonitorState::HoldOpen), MonitorAction::SleepHoldDwell);
    assert_eq!(action_for(MonitorState::WaitingForClose), MonitorAction::PollSensor);
    assert_eq!(action_for(MonitorState::GraceCheck), MonitorAction::GraceRecheck);
    assert_eq!(action_for(MonitorState::Locking), MonitorAction::DoLock);
    assert_eq!(action_for(MonitorState::Done), MonitorAction::NoAction);
    assert_eq!(action_for(MonitorState::Faulted), MonitorAction::NoAction);
}

#[test]
fn simulated_lock_completes_a_cycle() {
    // The simulated lock always reports the door closed, so a full cycle
    // runs to Done without ever looping in WaitingForClose.
    let mut lock = SoftLock::new();
    let mut s = MonitorState::Unlocking;
    let mut iterations = 0;
    while s != MonitorState::Done && s != MonitorState::Faulted {
        s = advance_with_lock(&mut lock, s);
        iterations += 1;
        assert!(iterations < 10);
    }
    assert_eq!(s, MonitorState::Done);
    assert!(!lock.unlocked);
}

#[test]
fn software_lock_reports_closed_and_tracks_commands() {
    let mut lock = SoftLock::new();
    assert!(!lock.unlocked);
    assert_eq!(lock.is_open(), Ok(false));
    assert_eq!(lock.open(), Ok(()));
    assert!(lock.unlocked);
    assert_eq!(lock.close(), Ok(()));
    assert!(!lock.unlocked);
}

#[test]
fn sensor_failure_faults_the_waiting_states() {
    assert_eq!(
        step(MonitorState::WaitingForClose, MonitorEvent::SensorFailed),
        MonitorState::Faulted
    );
    assert_eq!(
        step(MonitorState::GraceCheck, MonitorEvent::SensorFailed),
        MonitorState::Faulted
    );
}
