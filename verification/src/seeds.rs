//! The time-based seed used when the caller supplies none.

use vstd::prelude::*;

verus! {

/// Relies on std::time::SystemTime::now for the nanosecond part of the
/// current time. The value depends on the clock, so nothing is promised of
/// it; on a clock before the Unix epoch it is 0.
#[verifier::external_body]
fn system_time_subsec_nanos() -> u64 {
    std::time::SystemTime::now()
        .duration_since(std::time::UNIX_EPOCH)
        .map(|d| d.subsec_nanos() as u64)
        .unwrap_or(0)
}

/// The nanosecond part of the current time, used as the seed when the
/// caller supplies none. Unpredictable by design: no two runs should start
/// from the same default seed.
pub fn current_nanos() -> u64 {
    system_time_subsec_nanos()
}

} // verus!
