use vstd::prelude::*;
use crate::clock::now_unix;
use crate::errors::ServiceError;
use crate::idgen::new_opaque_id;
use crate::kv::assoc_get;

verus! {

/// How long an issued session stays valid, in seconds: sixty days.
pub const TOKEN_LIFETIME_SECONDS: i64 = 5184000;

/// What a session token is bound to: a username and an expiry instant.
pub struct TokenRecord {
    pub username: String,
    pub expires_at: i64,
}

/// The model of one token binding.
pub struct TokenInfo {
    pub username: Seq<char>,
    pub expires_at: int,
}

/// The expiry instant recorded for a token issued at `now`: sixty days
/// later, capped at the largest representable instant.
pub open spec fn expiry_of(now: int) -> int {
    if now + TOKEN_LIFETIME_SECONDS <= i64::MAX {
        now + TOKEN_LIFETIME_SECONDS
    } else {
        i64::MAX as int
    }
}

/// Validation on the model: unknown tokens are refused as such, known ones
/// are refused once `now` has passed their expiry instant, and otherwise the
/// bound username comes back. Expired records stay in the store as inert
/// entries; nothing sweeps them.
pub open spec fn validate_model(
    s: Seq<(Seq<char>, TokenInfo)>,
    token: Seq<char>,
    now: int,
) -> Result<Seq<char>, ServiceError> {
    match assoc_get(s, token) {
        None => Err(ServiceError::UnknownSessionCredential),
        Some(info) => if info.expires_at < now {
            Err(ServiceError::ExpiredSessionCredential)
        } else {
            Ok(info.username)
        },
    }
}

/// The session token manager: token id -> binding, modelled as the sequence
/// of bindings in issuance order (`assoc_get` reads it as a map, the binding
/// issued last winning). Tokens are never persisted: a restart empties it.
pub struct TokenManager {
    entries: Vec<(String, TokenRecord)>,
}

impl View for TokenManager {
    type V = Seq<(Seq<char>, TokenInfo)>;

    closed spec fn view(&self) -> Seq<(Seq<char>, TokenInfo)> {
        self.entries@.map_values(
            |e: (String, TokenRecord)|
                (e.0@, TokenInfo { username: e.1.username@, expires_at: e.1.expires_at as int }),
        )
    }
}

impl TokenManager {
    /// The binding recorded for `token`, if any.
    pub open spec fn info_of(self, token: Seq<char>) -> Option<TokenInfo> {
        assoc_get(self@, token)
    }

    /// An empty manager: the state at process start.
    pub fn new() -> (r: Self)
        ensures
            r@ == Seq::<(Seq<char>, TokenInfo)>::empty(),
    {
        let r = TokenManager { entries: Vec::new() };
        proof {
            assert(r@ =~= Seq::<(Seq<char>, TokenInfo)>::empty());
        }
        r
    }

    /// Whether `token` is recorded, live or expired.
    pub fn contains_token(&self, token: &String) -> (r: bool)
        ensures
            r == (assoc_get(self@, token@) is Some),
    {
        self.find_record(token).is_some()
    }

    /// Records the token `token` — tested fresh by the caller — for
    /// `username`, valid for sixty days from `now`. Recording under a fresh
    /// token leaves every earlier binding as it was, so prior sessions stay
    /// valid until their own expiry; there is no limit on live tokens per
    /// user.
    pub fn record_at(&mut self, username: &String, token: String, now: i64)
        requires
            assoc_get(old(self)@, token@) is None,
        ensures
            final(self)@ == old(self)@.push(
                (token@, TokenInfo { username: username@, expires_at: expiry_of(now as int) }),
            ),
    {
        let expires_at: i64 = if now <= i64::MAX - TOKEN_LIFETIME_SECONDS {
            now + TOKEN_LIFETIME_SECONDS
        } else {
            i64::MAX
        };
        let ghost tv = token@;
        self.entries.push((token, TokenRecord { username: username.clone(), expires_at }));
        proof {
            assert(self@ =~= old(self)@.push(
                (tv, TokenInfo { username: username@, expires_at: expiry_of(now as int) }),
            ));
        }
    }

    /// Issues a fresh opaque token for `username`, valid for sixty days from
    /// `now`. The drawn id is tested first — token ids stay unique, as paste
    /// ids do — and in the vanishingly unlikely case that it collides with a
    /// recorded token, `None` comes back and nothing changes rather than let
    /// the new binding shadow a live session.
    pub fn issue_at(&mut self, username: &String, now: i64) -> (t: Option<String>)
        ensures
            match t {
                Some(tok) => assoc_get(old(self)@, tok@) is None && final(self)@ == old(
                    self,
                )@.push(
                    (tok@, TokenInfo { username: username@, expires_at: expiry_of(now as int) }),
                ),
                None => final(self)@ == old(self)@,
            },
    {
        let token = new_opaque_id();
        if self.contains_token(&token) {
            return None;
        }
        self.record_at(username, token.clone(), now);
        Some(token)
    }

    /// Issues a fresh token for `username` valid for sixty days from the
    /// current instant; `None` on a drawn-id collision, nothing then changed.
    pub fn issue(&mut self, username: &String) -> (t: Option<String>)
        ensures
            match t {
                Some(tok) => assoc_get(old(self)@, tok@) is None && (exists|now: i64|
                    #![auto]
                    final(self)@ == old(self)@.push(
                        (
                            tok@,
                            TokenInfo { username: username@, expires_at: expiry_of(now as int) },
                        ),
                    )),
                None => final(self)@ == old(self)@,
            },
    {
        let now = now_unix();
        self.issue_at(username, now)
    }

    /// The binding recorded for `token`: the entry pushed last wins, as on a
    /// map with overwrite-on-insert.
    fn find_record(&self, token: &String) -> (r: Option<&TokenRecord>)
        ensures
            match r {
                Some(rec) => self.info_of(token@) == Some(
                    TokenInfo { username: rec.username@, expires_at: rec.expires_at as int },
                ),
                None => self.info_of(token@) is None,
            },
    {
        proof {
            assert(self@.take(self@.len() as int) =~= self@);
        }
        let mut i: usize = self.entries.len();
        while i > 0
            invariant
                i <= self.entries.len(),
                self@.len() == self.entries@.len(),
                assoc_get(self@, token@) == assoc_get(self@.take(i as int), token@),
            decreases i,
        {
            i = i - 1;
            if self.entries[i].0 == *token {
                proof {
                    assert(self@.take(i as int + 1).last() == self@[i as int]);
                }
                return Some(&self.entries[i].1);
            }
            proof {
                assert(self@.take(i as int + 1).drop_last() =~= self@.take(i as int));
            }
        }
        None
    }

    /// Validates `token` against the instant `now`, returning the bound
    /// username, `UnknownSessionCredential` for a token never issued, or
    /// `ExpiredSessionCredential` once `now` is past its expiry.
    pub fn validate_at(&self, token: &String, now: i64) -> (r: Result<String, ServiceError>)
        ensures
            match r {
                Ok(u) => validate_model(self@, token@, now as int) == Ok::<_, ServiceError>(u@),
                Err(e) => validate_model(self@, token@, now as int) == Err::<Seq<char>, _>(e),
            },
    {
        match self.find_record(token) {
            None => Err(ServiceError::UnknownSessionCredential),
            Some(rec) => if rec.expires_at < now {
                Err(ServiceError::ExpiredSessionCredential)
            } else {
                Ok(rec.username.clone())
            },
        }
    }

    /// Validates `token` against the current instant.
    pub fn validate(&self, token: &String) -> (r: Result<String, ServiceError>)
        ensures
            match r {
                Ok(u) => exists|now: i64|
                    #[trigger] validate_model(self@, token@, now as int) == Ok::<_, ServiceError>(
                        u@,
                    ),
                Err(e) => exists|now: i64|
                    #[trigger] validate_model(self@, token@, now as int) == Err::<Seq<char>, _>(e),
            },
    {
        let now = now_unix();
        self.validate_at(token, now)
    }
}

} // verus!
