use vstd::prelude::*;
use crate::creds::{register_model, verify_model};
use crate::errors::ServiceError;
use crate::kv::{assoc_get, lemma_assoc_get_push};
use crate::pastes::{pastes_of, PasteData};
use crate::tokens::{validate_model, TokenInfo};

verus! {

/// Registering a username a second time fails with `DuplicateUser` and the
/// hash stored by the first registration stands untouched.
pub proof fn lemma_register_duplicate_keeps_first(
    s: Seq<(Seq<char>, Seq<char>)>,
    username: Seq<char>,
    h1: Seq<char>,
    h2: Seq<char>,
)
    requires
        assoc_get(s, username) is None,
    ensures
        register_model(s, username, h1) == Ok::<_, ServiceError>(s.push((username, h1))),
        register_model(s.push((username, h1)), username, h2) == Err::<
            Seq<(Seq<char>, Seq<char>)>,
            _,
        >(ServiceError::DuplicateUser),
        assoc_get(s.push((username, h1)), username) == Some(h1),
{
    lemma_assoc_get_push(s, (username, h1), username);
}

/// Right after a registration stored the hash `h` of password `p` — and a
/// successful registration promises a stored hash argon2 accepts against `p`
/// — verification of `p` for that username succeeds.
pub proof fn lemma_verify_after_register(
    s: Seq<(Seq<char>, Seq<char>)>,
    username: Seq<char>,
    p: Seq<char>,
    h: Seq<char>,
)
    requires
        assoc_get(s, username) is None,
        crate::hashing::argon2_matches(p, h),
    ensures
        register_model(s, username, h) == Ok::<_, ServiceError>(s.push((username, h))),
        verify_model(s.push((username, h)), username, p),
{
    lemma_assoc_get_push(s, (username, h), username);
}

/// After a registration stored the hash `h` for a username, verifying any
/// candidate password is exactly the argon2 check of that candidate against
/// `h`: the store adds nothing to, and takes nothing from, the one-way hash.
/// That a wrong candidate is then refused rests on argon2 accepting no
/// second preimage, which its documentation does not promise outright.
pub proof fn lemma_verify_reduces_to_hash(
    s: Seq<(Seq<char>, Seq<char>)>,
    username: Seq<char>,
    candidate: Seq<char>,
    h: Seq<char>,
)
    ensures
        verify_model(s.push((username, h)), username, candidate)
            == crate::hashing::argon2_matches(candidate, h),
{
    lemma_assoc_get_push(s, (username, h), username);
}

/// Issuing a session under a fresh token — and issuance records only tokens
/// tested fresh — binds that token and leaves every other token's binding,
/// live or expired, exactly as it was: re-login invalidates no prior session.
pub proof fn lemma_fresh_issue_preserves_sessions(
    toks: Seq<(Seq<char>, TokenInfo)>,
    token: Seq<char>,
    info: TokenInfo,
)
    requires
        assoc_get(toks, token) is None,
    ensures
        assoc_get(toks.push((token, info)), token) == Some(info),
        forall|t: Seq<char>| t != token ==> #[trigger] assoc_get(toks.push((token, info)), t)
            == assoc_get(toks, t),
{
    assert forall|t: Seq<char>| t != token implies #[trigger] assoc_get(toks.push((token, info)), t)
        == assoc_get(toks, t) by {
        lemma_assoc_get_push(toks, (token, info), t);
    }
    lemma_assoc_get_push(toks, (token, info), token);
}

/// A recorded token validates exactly up to its expiry instant, fails with
/// `ExpiredSessionCredential` strictly after it, and a token never issued
/// fails with `UnknownSessionCredential`, whatever the instant.
pub proof fn lemma_validate_window(
    toks: Seq<(Seq<char>, TokenInfo)>,
    token: Seq<char>,
    now: int,
)
    ensures
        match assoc_get(toks, token) {
            Some(info) => (validate_model(toks, token, now) == Ok::<_, ServiceError>(info.username)
                <==> now <= info.expires_at) && (validate_model(toks, token, now) == Err::<
                Seq<char>,
                _,
            >(ServiceError::ExpiredSessionCredential) <==> info.expires_at < now),
            None => validate_model(toks, token, now) == Err::<Seq<char>, _>(
                ServiceError::UnknownSessionCredential,
            ),
        },
{
}

/// Appending one paste entry extends its owner's listing by that paste and
/// leaves every other owner's listing untouched.
pub proof fn lemma_pastes_of_push(
    s: Seq<(Seq<char>, PasteData)>,
    e: (Seq<char>, PasteData),
    owner: Seq<char>,
)
    ensures
        pastes_of(s.push(e), owner) == (if e.0 == owner {
            pastes_of(s, owner).push(e.1)
        } else {
            pastes_of(s, owner)
        }),
{
    assert(s.push(e).drop_last() =~= s);
}

/// Appending any run of paste entries that all belong to one owner makes
/// that owner's listing exactly the old listing followed by those pastes in
/// order: creating N pastes lists exactly those N, in creation order.
pub proof fn lemma_list_after_creates(
    s: Seq<(Seq<char>, PasteData)>,
    owner: Seq<char>,
    added: Seq<(Seq<char>, PasteData)>,
)
    requires
        forall|k: int| 0 <= k < added.len() ==> (#[trigger] added[k]).0 == owner,
    ensures
        pastes_of(s + added, owner) == pastes_of(s, owner) + added.map_values(
            |e: (Seq<char>, PasteData)| e.1,
        ),
    decreases added.len(),
{
    let f = |e: (Seq<char>, PasteData)| e.1;
    if added.len() == 0 {
        assert(s + added =~= s);
        assert(pastes_of(s, owner) + added.map_values(f) =~= pastes_of(s, owner));
    } else {
        let rest = added.drop_last();
        lemma_list_after_creates(s, owner, rest);
        assert(s + added =~= (s + rest).push(added.last()));
        lemma_pastes_of_push(s + rest, added.last(), owner);
        assert(pastes_of(s, owner) + added.map_values(f) =~= (pastes_of(s, owner)
            + rest.map_values(f)).push(added.last().1));
    }
}

/// Two paste submissions for one owner, serialized in either order by the
/// store's lock, leave the owner's listing with both pastes appended and
/// lose neither.
pub proof fn lemma_no_lost_update(
    s: Seq<(Seq<char>, PasteData)>,
    e1: (Seq<char>, PasteData),
    e2: (Seq<char>, PasteData),
    owner: Seq<char>,
)
    requires
        e1.0 == owner,
        e2.0 == owner,
    ensures
        pastes_of(s.push(e1).push(e2), owner) == pastes_of(s, owner).push(e1.1).push(e2.1),
{
    lemma_pastes_of_push(s, e1, owner);
    lemma_pastes_of_push(s.push(e1), e2, owner);
}

} // verus!
