use vstd::prelude::*;

verus! {

/// Relies on uuid's `Uuid::new_v4`, rendered in the canonical hyphenated
/// form: a fresh random identifier, used both for session tokens and for
/// paste ids. The value is random, so nothing is assumed of it; callers that
/// need freshness test it against their own contents.
#[verifier::external_body]
pub(crate) fn new_opaque_id() -> (r: String) {
    uuid::Uuid::new_v4().to_string()
}

} // verus!
