//! Trusted declarations for the std time types the state machine carries.
//!
//! Statuses are stamped with the instant they were entered and the
//! configuration holds durations, but the transition logic never inspects
//! either value: instants and durations only move from one place to another.
//! Both types therefore stay opaque to the proofs. (`core::time::Duration`
//! is already declared by vstd; only `Instant` is declared here.)

use vstd::prelude::*;

verus! {

/// `std::time::Instant` as an opaque value: statuses are stamped with it,
/// and no proof ever reads it back.
#[verifier::external_type_specification]
#[verifier::external_body]
pub struct ExInstant(std::time::Instant);

/// Relies on `std::time::Instant::now`: it reads the monotonic clock, and
/// nothing is assumed about the instant it returns.
pub assume_specification[ std::time::Instant::now ]() -> std::time::Instant;

/// Relies on `core::time::Duration::from_secs`: it builds a duration of the
/// given number of whole seconds; the value stays opaque to the proofs.
pub assume_specification[ core::time::Duration::from_secs ](secs: u64) -> core::time::Duration;

} // verus!
