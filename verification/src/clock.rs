use vstd::prelude::*;

verus! {

/// Relies on chrono::Utc::now and DateTime::timestamp: the current
/// wall-clock instant in seconds since the epoch, truncated to the
/// unsigned range. The result depends on the system clock, so nothing is
/// promised of it; every caller takes the instant as a plain argument.
#[verifier::external_body]
pub fn current_unix_time() -> (r: u64) {
    chrono::Utc::now().timestamp() as u64
}

} // verus!
