//! Race an asynchronous operation against a user interrupt request.
//!
//! A user-initiated interrupt (for example a terminal control sequence) is in
//! many pipelines hardly different from a fatal application error.  This
//! library provides the logic of treating it as one: the outcome of each
//! scheduling step of a race between an in-flight operation and an interrupt
//! signal is decided by a fixed precedence rule, and every failure source is
//! carried in one unified, inspectable error type.
//!
//! The library itself performs no input or output: it decides.  A surrounding
//! program polls the operation and the signal subscription, hands the two
//! observations to [`race::InterruptRace::step`], and performs whatever the
//! returned [`race::StepResult`] calls for.

pub mod errors;
pub mod race;
pub mod laws;
