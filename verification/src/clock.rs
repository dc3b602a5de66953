//! The clock from which a state takes its entry time.

use vstd::prelude::*;

verus! {

/// `std::time::Instant`, a reading of the monotonic clock. Contracts treat it
/// as an opaque value: they can say that two readings are one and the same,
/// and nothing more.
#[verifier::external_type_specification]
#[verifier::external_body]
pub struct ExInstant(std::time::Instant);

/// `Instant::now` returns the current reading of the clock. The reading
/// depends on when the call is made, so nothing is claimed of it.
pub assume_specification[ std::time::Instant::now ]() -> (now: std::time::Instant);

} // verus!
