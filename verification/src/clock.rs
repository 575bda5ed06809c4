//! The monotonic clock the breaker stamps its failures with: what is taken
//! from `std::time`, and on what terms.

use std::time::{Duration, Instant};
use vstd::prelude::*;

verus! {

/// `std::time::Instant`, carried as an opaque point on the monotonic clock.
#[verifier::external_type_specification]
#[verifier::external_body]
pub struct ExInstant(std::time::Instant);

/// `Instant::now` reads the monotonic clock. The reading depends on when the
/// call is made, so nothing is claimed of it.
pub assume_specification[ Instant::now ]() -> (reading: Instant)
;

/// `Instant::elapsed` tells how long ago the instant was read, and gives zero
/// for one that lies ahead of the clock. The amount depends on when the call
/// is made, so nothing is claimed of it.
pub assume_specification[ Instant::elapsed ](earlier: &Instant) -> (elapsed: Duration)
;

/// `Duration::as_nanos` gives the whole nanoseconds of a duration. A duration
/// is opaque here, so nothing is claimed of the number.
pub assume_specification[ Duration::as_nanos ](span: &Duration) -> (nanos: u128)
;

} // verus!
