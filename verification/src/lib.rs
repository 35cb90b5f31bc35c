//! Authenticated door actuation controller.
//!
//! Validates time-based one-time codes against a set of shared secrets,
//! serializes physical open/close actuation through a bounded request queue,
//! and drives a sensor-polling state machine that re-locks the door only once
//! it has genuinely closed.

pub mod coordinator;
pub mod doorlock;
pub mod hardware;
pub mod keys;
pub mod monitor;
pub mod servo;
pub mod validator;
