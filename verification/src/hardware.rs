//! Pin assignment for the physical lock and the actuation sequences it
//! issues. The GPIO wiring that executes these sequences lives with the
//! hardware plumbing; everything it sends is computed here.

use crate::servo::{lock_steps, unlock_steps, ServoStep, DWELL_MS, LOCK_ANGLE, NEUTRAL_ANGLE,
    UNLOCK_ANGLE};
use vstd::prelude::*;

verus! {

/// Default output pin carrying the servo PWM signal.
pub const GPIO_PWM: u8 = 23;

/// Default input pin reading the reed switch.
pub const GPIO_REED_SWITCH: u8 = 24;

/// The physical door lock's pin assignment: which pin drives the servo and
/// which reads the reed switch.
#[derive(Clone, Copy, PartialEq, Eq, Structural, Debug)]
pub struct DoorLock {
    pub servo_pin: u8,
    pub reed_switch_pin: u8,
}

impl DoorLock {
    /// A lock wired to the given servo output pin and reed-switch input pin.
    pub fn new(servo_pin: u8, reed_switch_pin: u8) -> (r: Self)
        ensures
            r.servo_pin == servo_pin,
            r.reed_switch_pin == reed_switch_pin,
    {
        DoorLock { servo_pin, reed_switch_pin }
    }

    /// A lock wired to the default pins.
    pub fn default_wiring() -> (r: Self)
        ensures
            r.servo_pin == GPIO_PWM,
            r.reed_switch_pin == GPIO_REED_SWITCH,
    {
        DoorLock::new(GPIO_PWM, GPIO_REED_SWITCH)
    }

    /// The servo sequence that opens the lock: throw to the unlock angle,
    /// then return to neutral, each held for the fixed dwell.
    pub fn open_sequence(&self) -> (r: Vec<ServoStep>)
        ensures
            r@.len() == 2,
            r@[0] == (ServoStep { angle: UNLOCK_ANGLE, dwell_ms: DWELL_MS }),
            r@[1] == (ServoStep { angle: NEUTRAL_ANGLE, dwell_ms: DWELL_MS }),
    {
        unlock_steps()
    }

    /// The servo sequence that closes the lock: throw to the lock angle,
    /// then return to neutral, each held for the fixed dwell.
    pub fn close_sequence(&self) -> (r: Vec<ServoStep>)
        ensures
            r@.len() == 2,
            r@[0] == (ServoStep { angle: LOCK_ANGLE, dwell_ms: DWELL_MS }),
            r@[1] == (ServoStep { angle: NEUTRAL_ANGLE, dwell_ms: DWELL_MS }),
    {
        lock_steps()
    }
}

} // verus!
