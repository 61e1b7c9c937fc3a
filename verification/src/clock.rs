//! The two clocks: wall time for people and peers, monotonic time for leases.

use vstd::prelude::*;

verus! {

/// `std::time::Instant`, carried as a whole: the start of a monotonic clock.
#[verifier::external_type_specification]
#[verifier::external_body]
pub struct ExInstant(std::time::Instant);

/// One reading of both clocks.
#[derive(Clone, Copy, Debug, PartialEq, Eq, Structural)]
pub struct Moment {
    /// Nanoseconds on the monotonic clock, counted from its start.
    pub mono_ns: u64,
    /// Milliseconds since the Unix epoch.
    pub wall_ms: u64,
}

/// `std::time::SystemTime::now`, in milliseconds since the Unix epoch; a wall clock that
/// stands before the epoch reads as 0. The reading can be any number, so nothing is said of it.
#[verifier::external_body]
pub(crate) fn unix_millis() -> u64 {
    std::time::SystemTime::now().duration_since(std::time::UNIX_EPOCH).unwrap_or_default().as_millis() as u64
}

/// `std::time::Instant::now`: a start for a monotonic clock. Nothing is said of it.
#[verifier::external_body]
pub(crate) fn monotonic_start() -> std::time::Instant {
    std::time::Instant::now()
}

/// `std::time::Instant::elapsed`, in nanoseconds since the start. Nothing is said of it.
#[verifier::external_body]
fn monotonic_nanos(start: &std::time::Instant) -> u64 {
    start.elapsed().as_nanos() as u64
}

/// Reads both clocks.
pub(crate) fn read_clocks(start: &std::time::Instant) -> Moment {
    Moment { mono_ns: monotonic_nanos(start), wall_ms: unix_millis() }
}

} // verus!
