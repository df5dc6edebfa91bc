//! What the harness takes from outside to time an operation: the wall clock of
//! the standard library, and the benchmarking framework's barrier against the
//! optimiser.

use std::time::Duration;
use std::time::Instant;
use vstd::prelude::*;

verus! {

/// A reading of the monotonic clock, opaque to the verifier.
#[verifier::external_type_specification]
#[verifier::external_body]
pub struct ExInstant(Instant);

/// `Instant::now` reads the clock. Nothing is known of the reading.
pub assume_specification[ Instant::now ]() -> (now: Instant)
;

/// `Instant::elapsed` gives the time that has passed since the reading was
/// taken. Nothing is known of its length.
pub assume_specification[ Instant::elapsed ](start: &Instant) -> (elapsed: Duration)
;

/// `Duration::as_nanos` gives the whole length of a duration in nanoseconds.
pub assume_specification[ Duration::as_nanos ](duration: &Duration) -> (nanos: u128)
;

/// `black_box` hands its argument back unchanged; the optimiser cannot see
/// through the call.
pub assume_specification<T>[ codspeed_criterion_compat::black_box::<T> ](dummy: T) -> (out: T)
    ensures
        out == dummy,
;

} // verus!
