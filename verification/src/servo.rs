//! Servo pulse-width computation: the linear mapping from a logical lock
//! command to an angle and from an angle to a PWM pulse specification, and
//! the fixed two-phase actuation sequences.

use vstd::prelude::*;

verus! {

/// PWM signal period, in milliseconds.
pub const PERIOD_MS: u64 = 20;

/// Pulse width driving the servo to its lowest angle, in microseconds.
pub const PULSE_MIN_US: u64 = 600;

/// Pulse width driving the servo to its highest angle, in microseconds.
pub const PULSE_MAX_US: u64 = 2300;

/// Servo angle for the unlocked position.
pub const UNLOCK_ANGLE: u8 = 0;

/// Neutral servo angle, held after each throw so the servo does not strain
/// against the mechanism.
pub const NEUTRAL_ANGLE: u8 = 128;

/// Servo angle for the locked position.
pub const LOCK_ANGLE: u8 = 255;

/// How long each servo command is held, in milliseconds, so the physical
/// motor completes its throw before the next command.
pub const DWELL_MS: u64 = 2000;

/// The linear angle-to-pulse-width mapping, in microseconds.
pub open spec fn spec_angle_to_micros(angle: u8) -> int {
    ((PULSE_MAX_US - PULSE_MIN_US) * angle as int) / 255 + PULSE_MIN_US
}

/// Pulse width in microseconds for a servo angle in [0, 255].
pub fn angle_to_millis(angle: u8) -> (r: u64)
    ensures
        r == spec_angle_to_micros(angle),
        PULSE_MIN_US <= r <= PULSE_MAX_US,
{
    proof {
        lemma_angle_to_micros_bounds(angle);
    }
    ((PULSE_MAX_US - PULSE_MIN_US) * (angle as u64)) / 255 + PULSE_MIN_US
}

/// The pulse width of every valid angle lies within the servo's accepted band.
pub proof fn lemma_angle_to_micros_bounds(angle: u8)
    ensures
        PULSE_MIN_US <= spec_angle_to_micros(angle) <= PULSE_MAX_US,
{
    assert(0 <= (PULSE_MAX_US - PULSE_MIN_US) * angle as int <= 1700 * 255) by (nonlinear_arith);
    assert(0 <= ((PULSE_MAX_US - PULSE_MIN_US) * angle as int) / 255 <= 1700) by (nonlinear_arith)
        requires
            0 <= (PULSE_MAX_US - PULSE_MIN_US) * angle as int <= 1700 * 255,
    ;
}

/// The angle-to-pulse mapping is monotonic non-decreasing.
pub proof fn lemma_angle_to_micros_monotonic(a1: u8, a2: u8)
    requires
        a1 <= a2,
    ensures
        spec_angle_to_micros(a1) <= spec_angle_to_micros(a2),
{
    assert((PULSE_MAX_US - PULSE_MIN_US) * a1 as int <= (PULSE_MAX_US - PULSE_MIN_US)
        * a2 as int) by (nonlinear_arith)
        requires
            a1 <= a2,
    ;
    assert(((PULSE_MAX_US - PULSE_MIN_US) * a1 as int) / 255 <= ((PULSE_MAX_US - PULSE_MIN_US)
        * a2 as int) / 255) by (nonlinear_arith)
        requires
            (PULSE_MAX_US - PULSE_MIN_US) * a1 as int <= (PULSE_MAX_US - PULSE_MIN_US)
                * a2 as int,
    ;
}

/// The mapping hits the servo band's endpoints exactly: the lowest angle
/// gives the minimum pulse and the highest angle the maximum pulse.
pub proof fn lemma_angle_to_micros_endpoints()
    ensures
        spec_angle_to_micros(0) == PULSE_MIN_US,
        spec_angle_to_micros(255) == PULSE_MAX_US,
{
    assert(((PULSE_MAX_US - PULSE_MIN_US) * 0) / 255 == 0) by (nonlinear_arith);
    assert(((PULSE_MAX_US - PULSE_MIN_US) * 255) / 255 == 1700) by (nonlinear_arith);
}

/// A pulse-width-modulation signal: a fixed period and the width of the high
/// pulse within it.
pub struct PulseSpec {
    pub period_ms: u64,
    pub pulse_width_us: u64,
}

impl PulseSpec {
    /// A pulse specification is well formed when its period is the fixed
    /// signal period and its pulse width lies within the servo's band.
    pub open spec fn wf(self) -> bool {
        &&& self.period_ms == PERIOD_MS
        &&& PULSE_MIN_US <= self.pulse_width_us <= PULSE_MAX_US
    }
}

/// The complete PWM signal for a servo angle.
pub fn pulse_for_angle(angle: u8) -> (p: PulseSpec)
    ensures
        p.wf(),
        p.period_ms == PERIOD_MS,
        p.pulse_width_us == spec_angle_to_micros(angle),
{
    PulseSpec { period_ms: PERIOD_MS, pulse_width_us: angle_to_millis(angle) }
}

/// A logical lock command, mapped to a servo angle on demand.
#[derive(Clone, Copy, PartialEq, Eq, Structural, Debug)]
pub enum LockCommand {
    Unlock,
    Neutral,
    Lock,
}

/// The servo angle each logical command drives to.
pub open spec fn spec_command_angle(cmd: LockCommand) -> u8 {
    match cmd {
        LockCommand::Unlock => UNLOCK_ANGLE,
        LockCommand::Neutral => NEUTRAL_ANGLE,
        LockCommand::Lock => LOCK_ANGLE,
    }
}

/// The servo angle for a logical lock command.
pub fn command_angle(cmd: LockCommand) -> (a: u8)
    ensures
        a == spec_command_angle(cmd),
{
    match cmd {
        LockCommand::Unlock => UNLOCK_ANGLE,
        LockCommand::Neutral => NEUTRAL_ANGLE,
        LockCommand::Lock => LOCK_ANGLE,
    }
}

/// One step of an actuation sequence: drive to an angle, then hold for the
/// dwell so the motor completes its motion.
#[derive(Clone, Copy, PartialEq, Eq, Structural, Debug)]
pub struct ServoStep {
    pub angle: u8,
    pub dwell_ms: u64,
}

/// The two-phase unlock sequence: throw to the unlock angle, then return to
/// neutral, each held for the fixed dwell.
pub fn unlock_steps() -> (r: Vec<ServoStep>)
    ensures
        r@.len() == 2,
        r@[0] == (ServoStep { angle: UNLOCK_ANGLE, dwell_ms: DWELL_MS }),
        r@[1] == (ServoStep { angle: NEUTRAL_ANGLE, dwell_ms: DWELL_MS }),
{
    let mut v: Vec<ServoStep> = Vec::new();
    v.push(ServoStep { angle: UNLOCK_ANGLE, dwell_ms: DWELL_MS });
    v.push(ServoStep { angle: NEUTRAL_ANGLE, dwell_ms: DWELL_MS });
    v
}

/// The two-phase lock sequence: throw to the lock angle, then return to
/// neutral, each held for the fixed dwell.
pub fn lock_steps() -> (r: Vec<ServoStep>)
    ensures
        r@.len() == 2,
        r@[0] == (ServoStep { angle: LOCK_ANGLE, dwell_ms: DWELL_MS }),
        r@[1] == (ServoStep { angle: NEUTRAL_ANGLE, dwell_ms: DWELL_MS }),
{
    let mut v: Vec<ServoStep> = Vec::new();
    v.push(ServoStep { angle: LOCK_ANGLE, dwell_ms: DWELL_MS });
    v.push(ServoStep { angle: NEUTRAL_ANGLE, dwell_ms: DWELL_MS });
    v
}

} // verus!
