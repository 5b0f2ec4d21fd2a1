use vstd::prelude::*;

verus! {

/// Relies on chrono::Utc::now: the current wall-clock instant, in milliseconds
/// since the Unix epoch. The result depends on the clock, so nothing is
/// promised of it; callers state what holds for every instant.
#[verifier::external_body]
pub(crate) fn current_time_millis() -> i64 {
    chrono::Utc::now().timestamp_millis()
}

} // verus!
