//! The door lock interface: a polymorphic open/close/sense capability with a
//! simulated implementation for non-hardware environments, and the
//! interpretation of the raw reed-switch level.

use vstd::prelude::*;

verus! {

/// A hardware fault, by the phase of physical interaction that failed.
#[derive(Clone, Copy, PartialEq, Eq, Structural, Debug)]
pub enum HardwareError {
    /// The output or input pin could not be acquired.
    PinAccess,
    /// Writing the PWM signal to the output pin failed.
    SignalWrite,
    /// Reading the reed-switch input pin failed.
    SensorRead,
}

/// The open/close/sense capability of a door lock. Implemented in this crate
/// by the simulated [`DoorLock`]; a real GPIO-backed implementation lives
/// with the hardware wiring.
pub trait DoorLockTrait: Sized {
    fn new() -> Self;

    fn open(&mut self) -> Result<(), HardwareError>;

    fn close(&mut self) -> Result<(), HardwareError>;

    fn is_open(&self) -> Result<bool, HardwareError>;
}

/// The reed switch input is wired pull-down: with the magnet present (door
/// closed) the switch holds the pin high, and without it the pull-down
/// leaves the pin low. The door is open exactly when the level is low.
pub open spec fn spec_door_open_from_level(level_is_low: bool) -> bool {
    level_is_low
}

/// Interprets a raw reed-switch pin level as a door state: the door is open
/// exactly when the pin level is low.
pub fn door_open_from_level(level_is_low: bool) -> (open: bool)
    ensures
        open == spec_door_open_from_level(level_is_low),
{
    level_is_low
}

/// A simulated door lock for environments without the physical mechanism:
/// it records the commanded position, never faults, and always reports the
/// door closed so an actuation cycle completes immediately.
#[derive(Clone, Copy, PartialEq, Eq, Structural, Debug)]
pub struct DoorLock {
    pub unlocked: bool,
}

impl DoorLockTrait for DoorLock {
    fn new() -> (r: Self)
        ensures
            !r.unlocked,
    {
        DoorLock { unlocked: false }
    }

    fn open(&mut self) -> (r: Result<(), HardwareError>)
        ensures
            final(self).unlocked,
            r is Ok,
    {
        self.unlocked = true;
        Ok(())
    }

    fn close(&mut self) -> (r: Result<(), HardwareError>)
        ensures
            !final(self).unlocked,
            r is Ok,
    {
        self.unlocked = false;
        Ok(())
    }

    fn is_open(&self) -> (r: Result<bool, HardwareError>)
        ensures
            r == Result::<bool, HardwareError>::Ok(false),
    {
        Ok(false)
    }
}

} // verus!
