use vstd::prelude::*;

verus! {

/// Relies on chrono's `Utc::now`, with `timestamp` reducing it to whole
/// seconds since the Unix epoch. The value depends on the wall clock, so
/// nothing is assumed of it; every caller states what holds for any reading.
#[verifier::external_body]
pub(crate) fn now_unix() -> (r: i64) {
    chrono::Utc::now().timestamp()
}

} // verus!
