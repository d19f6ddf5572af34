use vstd::prelude::*;
use argon2::{Argon2, PasswordHasher, PasswordVerifier};

verus! {

/// Whether argon2 password verification accepts `password` against the PHC
/// hash string `hash`. Verification re-runs the hash with the salt and
/// parameters carried inside `hash` and compares outputs, so the outcome is a
/// function of the two strings alone.
pub uninterp spec fn argon2_matches(password: Seq<char>, hash: Seq<char>) -> bool;

/// Relies on argon2's `PasswordHasher::hash_password`: hashes the password
/// with a freshly generated random salt and returns the PHC string, which by
/// construction of `PasswordVerifier::verify_password` (re-hash with the
/// embedded salt and parameters, compare outputs) verifies against the same
/// password.
#[verifier::external_body]
pub(crate) fn hash_password(password: &String) -> (r: Option<String>)
    ensures
        r matches Some(h) ==> argon2_matches(password@, h@),
{
    match Argon2::default().hash_password(password.as_bytes()) {
        Ok(h) => Some(h.to_string()),
        Err(_) => None,
    }
}

/// Relies on argon2's `PasswordVerifier::verify_password` for `str`: parses
/// the PHC string and accepts exactly when the re-computed hash matches; any
/// parse or verification failure comes back as an error, mapped to `false`.
/// An empty hash string is not a parseable PHC string, so it verifies for no
/// password.
#[verifier::external_body]
pub(crate) fn check_password(password: &String, hash: &String) -> (r: bool)
    ensures
        r == argon2_matches(password@, hash@),
        hash@.len() == 0 ==> !r,
{
    Argon2::default().verify_password(password.as_bytes(), hash.as_str()).is_ok()
}

} // verus!
