//! The code validator and the request-handling decision: checks a candidate
//! one-time code against the shared secrets and, on success, enqueues one
//! actuation request.

use crate::coordinator::{Coordinator, SubmitOutcome};
use vstd::prelude::*;
use vstd::string::StrSliceExecFns;
use vstd::string::StringExecFns;

verus! {

/// Required length of a candidate code, in characters.
pub const CODE_LENGTH: usize = 6;

/// Clock-skew tolerance of the one-time-code check, in 30-second time
/// steps on each side of the current one.
pub const OTP_TOLERANCE_STEPS: u64 = 1;

/// A candidate code as submitted by a user.
#[derive(Debug)]
pub struct PinCode {
    pub number: String,
}

/// Relies on libreauth's TOTP verifier (`TOTPBuilder`, `TOTP::is_valid`):
/// builds the standard 30-second-step, SHA1, 6-digit verifier from the
/// base32-encoded secret with the given clock-skew tolerance in steps, and
/// checks the candidate at the current wall-clock time. A secret that is
/// not valid base32 makes `finalize` fail, reported here as no verdict; the
/// caller decides what that means. The tolerance is capped at 2, the
/// highest value libreauth documents, so subtracting it from the current
/// step counter cannot underflow inside `is_valid`. A verdict depends on
/// the wall clock, so nothing is promised of its value.
#[verifier::external_body]
fn totp_verdict(key: &str, candidate: &str, tolerance_steps: u64) -> Option<bool>
    requires
        tolerance_steps <= 2,
{
    match libreauth::oath::TOTPBuilder::new().base32_key(key).tolerance(
        tolerance_steps,
    ).finalize() {
        Ok(t) => Some(t.is_valid(candidate)),
        Err(_) => None,
    }
}

/// Whether the candidate code matches the current one-time code of any of
/// the shared secrets, within the fixed clock-skew tolerance. A candidate of
/// the wrong length is rejected before any cryptographic work, and an empty
/// secret set rejects everything; a malformed secret is skipped, never
/// fatal.
pub fn key_is_valid(number: &str, keys: &Vec<String>) -> (r: bool)
    ensures
        number@.len() != CODE_LENGTH ==> r == false,
        keys@.len() == 0 ==> r == false,
        r ==> number@.len() == CODE_LENGTH && keys@.len() > 0,
{
    if number.unicode_len() != CODE_LENGTH {
        return false;
    }
    let mut i: usize = 0;
    while i < keys.len()
        invariant
            i <= keys@.len(),
            number@.len() == CODE_LENGTH,
        decreases keys@.len() - i,
    {
        match totp_verdict(keys[i].as_str(), number, OTP_TOLERANCE_STEPS) {
            Some(true) => return true,
            // A malformed secret yields no verdict and is skipped; a
            // mismatch moves on to the next secret.
            Some(false) | None => {},
        }
        i += 1;
    }
    false
}

/// The outcome of one inbound code submission.
#[derive(Clone, Copy, PartialEq, Eq, Structural, Debug)]
pub enum AccessOutcome {
    /// The code was valid and one actuation request was queued.
    Granted,
    /// The code did not match any secret, or had the wrong length; nothing
    /// was queued.
    InvalidCode,
    /// The code was valid but the request queue was full; nothing was
    /// queued.
    Busy,
}

/// The access decision once the validator's verdict is in hand: an invalid
/// code is reported as such and the coordinator is left untouched; a valid
/// one submits exactly one actuation request, granted when the queue has
/// room and reported as saturation, distinctly, when it is full.
pub fn handle_validated(valid: bool, coord: &mut Coordinator) -> (r: AccessOutcome)
    requires
        old(coord).wf(),
    ensures
        final(coord).wf(),
        final(coord).spec_capacity() == old(coord).spec_capacity(),
        final(coord).spec_in_flight() == old(coord).spec_in_flight(),
        r == AccessOutcome::InvalidCode <==> !valid,
        r == AccessOutcome::Granted <==> valid && old(coord).spec_pending() < old(
            coord,
        ).spec_capacity(),
        r == AccessOutcome::Busy ==> old(coord).spec_pending() == old(coord).spec_capacity(),
        r == AccessOutcome::Granted ==> final(coord).spec_pending() == old(coord).spec_pending()
            + 1,
        r != AccessOutcome::Granted ==> final(coord).spec_pending() == old(coord).spec_pending(),
{
    if valid {
        match coord.try_submit() {
            SubmitOutcome::Accepted => AccessOutcome::Granted,
            SubmitOutcome::QueueSaturation => AccessOutcome::Busy,
        }
    } else {
        AccessOutcome::InvalidCode
    }
}

/// Handles one inbound code submission: validates the candidate and hands
/// the verdict to [`handle_validated`], which enqueues one actuation
/// request exactly when the code matched.
pub fn process_request(code: &PinCode, keys: &Vec<String>, coord: &mut Coordinator) -> (r:
    AccessOutcome)
    requires
        old(coord).wf(),
    ensures
        final(coord).wf(),
        final(coord).spec_capacity() == old(coord).spec_capacity(),
        final(coord).spec_in_flight() == old(coord).spec_in_flight(),
        code.number@.len() != CODE_LENGTH ==> r == AccessOutcome::InvalidCode,
        keys@.len() == 0 ==> r == AccessOutcome::InvalidCode,
        r == AccessOutcome::InvalidCode ==> final(coord).spec_pending() == old(
            coord,
        ).spec_pending(),
        r == AccessOutcome::Granted ==> old(coord).spec_pending() < old(coord).spec_capacity()
            && final(coord).spec_pending() == old(coord).spec_pending() + 1,
        r == AccessOutcome::Busy ==> old(coord).spec_pending() == old(coord).spec_capacity()
            && final(coord).spec_pending() == old(coord).spec_pending(),
        r != AccessOutcome::InvalidCode ==> code.number@.len() == CODE_LENGTH && keys@.len() > 0,
{
    let valid = key_is_valid(code.number.as_str(), keys);
    handle_validated(valid, coord)
}

/// The status message rendered for each outcome: a success marker for a
/// granted request, the localized wrong-code message, and a distinct busy
/// marker for queue saturation.
pub fn outcome_message(r: AccessOutcome) -> (m: String)
    ensures
        r == AccessOutcome::Granted ==> m@ == "OK"@,
        r == AccessOutcome::InvalidCode ==> m@ == "パスコードが間違っています"@,
        r == AccessOutcome::Busy ==> m@ == "BUSY"@,
{
    match r {
        AccessOutcome::Granted => String::from_str("OK"),
        AccessOutcome::InvalidCode => String::from_str("パスコードが間違っています"),
        AccessOutcome::Busy => String::from_str("BUSY"),
    }
}

} // verus!
