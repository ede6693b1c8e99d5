//! The two clocks that a sample is stamped with: the wall clock, which gives
//! the date shown to an operator, and the monotonic clock, which measures how
//! long a state has lasted.

use std::time::Instant;
use time::OffsetDateTime;
use vstd::prelude::*;

verus! {

#[verifier::external_type_specification]
#[verifier::external_body]
pub struct ExOffsetDateTime(time::OffsetDateTime);

#[verifier::external_type_specification]
#[verifier::external_body]
pub struct ExIndeterminateOffset(time::error::IndeterminateOffset);

#[verifier::external_type_specification]
#[verifier::external_body]
pub struct ExInstant(std::time::Instant);

/// The point in time at which a sample was taken, read from both clocks.
#[derive(Clone, Copy)]
pub struct Moment {
    /// Wall-clock time, in the local offset where it is known.
    pub wall: OffsetDateTime,
    /// Monotonic anchor, unaffected by adjustments of the wall clock.
    pub mono: Instant,
}

/// Relies on time::OffsetDateTime::now_local: the current time in the local
/// offset, or an error where that offset cannot be determined.
#[verifier::external_body]
fn local_now() -> (r: Result<OffsetDateTime, time::error::IndeterminateOffset>) {
    OffsetDateTime::now_local()
}

/// Relies on time::OffsetDateTime::now_utc: the current time in UTC.
#[verifier::external_body]
fn utc_now() -> (r: OffsetDateTime) {
    OffsetDateTime::now_utc()
}

/// Relies on std::time::Instant::now: the current reading of the monotonic clock.
#[verifier::external_body]
pub(crate) fn monotonic_now() -> (r: Instant) {
    Instant::now()
}

/// The current wall-clock time: local where the offset is known, UTC otherwise.
pub fn wall_now() -> (r: OffsetDateTime) {
    match local_now() {
        Ok(t) => t,
        Err(_) => utc_now(),
    }
}

impl Moment {
    /// Reads both clocks.
    pub fn now() -> (r: Moment) {
        let wall = wall_now();
        let mono = monotonic_now();
        Moment { wall, mono }
    }
}

} // verus!
