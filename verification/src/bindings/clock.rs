use vstd::prelude::*;

verus! {

/// `chrono::Utc::now().timestamp()`: the seconds since the Unix epoch by the
/// system clock. Nothing is promised of the value. The call panics where
/// the system clock stands before the epoch.
#[verifier::external_body]
pub(crate) fn current_timestamp() -> i64 {
    chrono::Utc::now().timestamp()
}

} // verus!
