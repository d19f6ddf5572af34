use vstd::prelude::*;
use crate::clock::now_unix;
use crate::creds::{verify_model, CredentialStore};
use crate::hashing::argon2_matches;
use crate::errors::ServiceError;
use crate::idgen::new_opaque_id;
use crate::kv::assoc_get;
use crate::pastes::{has_id, find_by_id, pastes_of, Paste, PasteData, PasteStore};
use crate::tokens::{expiry_of, validate_model, TokenInfo, TokenManager};
use vstd::string::StrSliceExecFns;

verus! {

/// The session credential a successful registration or login attaches to its
/// response, with the cookie attributes the transport is asked to set.
/// Registration sets every attribute; login sets fewer — a real inconsistency
/// kept as is, pending product sign-off, since unifying it would change
/// observable session behaviour.
pub struct SessionCookie {
    /// The opaque bearer token.
    pub token: String,
    /// Whether the cookie is to be kept from scripts.
    pub http_only: bool,
    /// Whether the cookie is to be restricted to same-site requests (lax).
    pub same_site_lax: bool,
    /// Whether the cookie is to be scoped to the whole service.
    pub path_root: bool,
    /// The cookie lifetime in days, where one is to be set at all.
    pub max_age_days: Option<u64>,
}

/// What a successful paste submission reports: the new paste's id and its
/// owner, from which the transport renders the two resource links.
pub struct PasteCreated {
    pub id: String,
    pub owner: String,
}

/// The view of an optional borrowed credential.
pub open spec fn opt_view(credential: Option<&String>) -> Option<Seq<char>> {
    match credential {
        None => None,
        Some(s) => Some(s@),
    }
}

/// Authentication on the model: a request without a credential is refused as
/// such; one with a credential is judged by token validation.
pub open spec fn auth_model(
    toks: Seq<(Seq<char>, TokenInfo)>,
    credential: Option<Seq<char>>,
    now: int,
) -> Result<Seq<char>, ServiceError> {
    match credential {
        None => Err(ServiceError::MissingSessionCredential),
        Some(t) => validate_model(toks, t, now),
    }
}

/// One whitespace character, of the ASCII kind a submitted form can carry.
pub open spec fn is_space_char(c: char) -> bool {
    c == ' ' || c == '\t' || c == '\n' || c == '\r'
}

/// A text is blank when no character in it is more than whitespace — so in
/// particular when it is empty.
pub open spec fn blank(s: Seq<char>) -> bool {
    forall|i: int| 0 <= i < s.len() ==> is_space_char(#[trigger] s[i])
}

/// Whether `text` is empty or only whitespace.
fn is_blank(text: &String) -> (r: bool)
    ensures
        r == blank(text@),
{
    let s = text.as_str();
    let n = s.unicode_len();
    let mut i: usize = 0;
    while i < n
        invariant
            s@ == text@,
            n == text@.len(),
            i <= n,
            forall|j: int| 0 <= j < i ==> is_space_char(#[trigger] text@[j]),
        decreases n - i,
    {
        let c = s.get_char(i);
        if !(c == ' ' || c == '\t' || c == '\n' || c == '\r') {
            proof {
                assert(!is_space_char(text@[i as int]));
            }
            return false;
        }
        i = i + 1;
    }
    true
}

/// What a paste submission is owed, before any store is touched: the
/// credential is judged first, then blank text — empty or only whitespace —
/// is refused; what remains is accepted for the session's owner.
pub open spec fn create_decision(
    toks: Seq<(Seq<char>, TokenInfo)>,
    credential: Option<Seq<char>>,
    now: int,
    text: Seq<char>,
) -> Result<Seq<char>, ServiceError> {
    match auth_model(toks, credential, now) {
        Err(e) => Err(e),
        Ok(u) => if blank(text) {
            Err(ServiceError::BlankPasteText)
        } else {
            Ok(u)
        },
    }
}

/// Registration: refused with `DuplicateUser` when the username is taken and
/// both stores are then untouched; otherwise the salted hash is stored —
/// verifying against the given password — and a fresh session is issued at
/// once, its cookie carrying the http-only, same-site-lax, whole-service-path
/// and sixty-day-age attributes. The session token is drawn and tested
/// before anything mutates and recorded only after the user is stored, so
/// every recorded token is bound to a stored user. Should the hash primitive
/// fail or the drawn token collide, `None` comes back and both stores are
/// untouched.
pub fn register(
    users: &mut CredentialStore,
    tokens: &mut TokenManager,
    username: &String,
    password: &String,
) -> (r: Option<Result<SessionCookie, ServiceError>>)
    ensures
        match r {
            None => final(users)@ == old(users)@ && final(tokens)@ == old(tokens)@,
            Some(res) => match res {
                Ok(c) => assoc_get(old(users)@, username@) is None && (exists|h: Seq<char>|
                    #![auto]
                    final(users)@ == old(users)@.push((username@, h)) && argon2_matches(
                        password@,
                        h,
                    )) && assoc_get(old(tokens)@, c.token@) is None && (exists|now: i64|
                    #![auto]
                    final(tokens)@ == old(tokens)@.push(
                        (
                            c.token@,
                            TokenInfo { username: username@, expires_at: expiry_of(now as int) },
                        ),
                    )) && c.http_only && c.same_site_lax && c.path_root && c.max_age_days == Some(
                    60u64,
                ),
                Err(e) => e == ServiceError::DuplicateUser && assoc_get(old(users)@, username@)
                    is Some && final(users)@ == old(users)@ && final(tokens)@ == old(tokens)@,
            },
        },
{
    let token = new_opaque_id();
    if tokens.contains_token(&token) {
        return None;
    }
    match users.register(username, password) {
        None => None,
        Some(Err(e)) => Some(Err(e)),
        Some(Ok(_)) => {
            let now = now_unix();
            tokens.record_at(username, token.clone(), now);
            Some(
                Ok(
                    SessionCookie {
                        token,
                        http_only: true,
                        same_site_lax: true,
                        path_root: true,
                        max_age_days: Some(60u64),
                    },
                ),
            )
        },
    }
}

/// Login: refused with a generic `InvalidCredentials` whenever verification
/// fails, missing user and wrong password indistinguishably, the token store
/// untouched; otherwise a fresh session is issued under a token tested not
/// to collide with any recorded one, so prior sessions stay exactly as they
/// were. Its cookie sets only the http-only and whole-service-path
/// attributes — fewer than registration's, an inconsistency kept as is.
/// `None` on a drawn-token collision, nothing then changed.
pub fn login(
    users: &CredentialStore,
    tokens: &mut TokenManager,
    username: &String,
    password: &String,
) -> (r: Option<Result<SessionCookie, ServiceError>>)
    ensures
        match r {
            None => verify_model(users@, username@, password@) && final(tokens)@ == old(tokens)@,
            Some(res) => match res {
                Ok(c) => verify_model(users@, username@, password@) && assoc_get(
                    old(tokens)@,
                    c.token@,
                ) is None && (exists|now: i64|
                    #![auto]
                    final(tokens)@ == old(tokens)@.push(
                        (
                            c.token@,
                            TokenInfo { username: username@, expires_at: expiry_of(now as int) },
                        ),
                    )) && c.http_only && !c.same_site_lax && c.path_root && c.max_age_days
                    is None,
                Err(e) => e == ServiceError::InvalidCredentials && !verify_model(
                    users@,
                    username@,
                    password@,
                ) && final(tokens)@ == old(tokens)@,
            },
        },
{
    if users.verify(username, password) {
        match tokens.issue(username) {
            None => None,
            Some(token) => Some(
                Ok(
                    SessionCookie {
                        token,
                        http_only: true,
                        same_site_lax: false,
                        path_root: true,
                        max_age_days: None,
                    },
                ),
            ),
        }
    } else {
        Some(Err(ServiceError::InvalidCredentials))
    }
}

/// Paste submission against a given fresh id and instant: the credential is
/// judged first — missing, unknown and expired each map to their own error —
/// then blank text is refused, the store in every such case untouched; what
/// remains is appended to the sequence of the session's owner.
pub fn create_paste_at(
    tokens: &TokenManager,
    pastes: &mut PasteStore,
    credential: Option<&String>,
    text: String,
    id: String,
    now: i64,
) -> (r: Result<PasteCreated, ServiceError>)
    requires
        old(pastes).wf(),
        !has_id(old(pastes)@, id@),
    ensures
        final(pastes).wf(),
        match r {
            Ok(pc) => pc.id@ == id@ && create_decision(
                tokens@,
                opt_view(credential),
                now as int,
                text@,
            ) == Ok::<_, ServiceError>(pc.owner@) && final(pastes)@ == old(pastes)@.push(
                (pc.owner@, PasteData { id: id@, text: text@, created_at: now as int }),
            ),
            Err(e) => create_decision(tokens@, opt_view(credential), now as int, text@) == Err::<
                Seq<char>,
                _,
            >(e) && final(pastes)@ == old(pastes)@,
        },
{
    let tok = match credential {
        None => {
            return Err(ServiceError::MissingSessionCredential);
        },
        Some(t) => t,
    };
    let username = match tokens.validate_at(tok, now) {
        Err(e) => {
            return Err(e);
        },
        Ok(u) => u,
    };
    if is_blank(&text) {
        return Err(ServiceError::BlankPasteText);
    }
    let paste_id = id.clone();
    pastes.insert(username.clone(), id, text, now);
    Ok(PasteCreated { id: paste_id, owner: username })
}

/// Paste submission: draws a fresh opaque id and the current instant, then
/// proceeds as `create_paste_at`. In the vanishingly unlikely case that the
/// drawn id is already taken, `None` comes back and the store is untouched —
/// and only then, so on an empty store every request is decided.
pub fn create_paste(
    tokens: &TokenManager,
    pastes: &mut PasteStore,
    credential: Option<&String>,
    text: String,
) -> (r: Option<Result<PasteCreated, ServiceError>>)
    requires
        old(pastes).wf(),
    ensures
        final(pastes).wf(),
        match r {
            None => final(pastes)@ == old(pastes)@ && old(pastes)@.len() > 0,
            Some(res) => match res {
                Ok(pc) => !has_id(old(pastes)@, pc.id@) && (exists|now: i64|
                    #![auto]
                    create_decision(tokens@, opt_view(credential), now as int, text@) == Ok::<
                        _,
                        ServiceError,
                    >(pc.owner@) && final(pastes)@ == old(pastes)@.push(
                        (pc.owner@, PasteData { id: pc.id@, text: text@, created_at: now as int }),
                    )),
                Err(e) => (exists|now: i64|
                    #![auto]
                    create_decision(tokens@, opt_view(credential), now as int, text@) == Err::<
                        Seq<char>,
                        _,
                    >(e)) && final(pastes)@ == old(pastes)@,
            },
        },
{
    let id = new_opaque_id();
    if pastes.contains_id(&id) {
        proof {
            assert(pastes@.len() > 0);
        }
        return None;
    }
    let now = now_unix();
    Some(create_paste_at(tokens, pastes, credential, text, id, now))
}

/// Paste display, unauthenticated: the paste carrying the id, or
/// `PasteNotFound` exactly when no stored paste carries it.
pub fn show_paste<'a>(pastes: &'a PasteStore, id: &String) -> (r: Result<&'a Paste, ServiceError>)
    ensures
        match r {
            Ok(p) => (match find_by_id(pastes@, id@) {
                Some(e) => e.1 == p@,
                None => false,
            }),
            Err(e) => e == ServiceError::PasteNotFound && !has_id(pastes@, id@),
        },
{
    match pastes.get_by_id(id) {
        Some(e) => Ok(&e.1),
        None => Err(ServiceError::PasteNotFound),
    }
}

/// Owner listing, unauthenticated: refused with `MissingIdentifier` when no
/// owner identifier was supplied; otherwise the owner's pastes in creation
/// order, empty both for an unknown owner and for one with no pastes.
pub fn show_user_pastes(pastes: &PasteStore, username: Option<&String>) -> (r: Result<
    Vec<Paste>,
    ServiceError,
>)
    ensures
        match r {
            Ok(v) => username is Some && v@.map_values(|p: Paste| p@) == pastes_of(
                pastes@,
                opt_view(username).unwrap(),
            ),
            Err(e) => e == ServiceError::MissingIdentifier && username is None,
        },
{
    match username {
        None => Err(ServiceError::MissingIdentifier),
        Some(u) => Ok(pastes.list_by_owner(u)),
    }
}

} // verus!
