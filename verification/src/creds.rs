use vstd::prelude::*;
use crate::errors::ServiceError;
use crate::hashing::{argon2_matches, check_password, hash_password};
use crate::kv::assoc_get;

verus! {

/// Registration on the model: refused when the username is already bound,
/// otherwise the new binding is appended.
pub open spec fn register_model(
    s: Seq<(Seq<char>, Seq<char>)>,
    username: Seq<char>,
    hash: Seq<char>,
) -> Result<Seq<(Seq<char>, Seq<char>)>, ServiceError> {
    if assoc_get(s, username) is Some {
        Err(ServiceError::DuplicateUser)
    } else {
        Ok(s.push((username, hash)))
    }
}

/// Verification on the model: true exactly when the username is bound and
/// argon2 accepts the password against its stored hash. An unknown username
/// and a wrong password are indistinguishable by design.
pub open spec fn verify_model(
    s: Seq<(Seq<char>, Seq<char>)>,
    username: Seq<char>,
    password: Seq<char>,
) -> bool {
    match assoc_get(s, username) {
        None => false,
        Some(h) => argon2_matches(password, h),
    }
}

/// The credential store: username -> stored password hash, modelled as the
/// sequence of records in insertion order (`assoc_get` reads it as a map).
pub struct CredentialStore {
    records: Vec<(String, String)>,
}

impl View for CredentialStore {
    type V = Seq<(Seq<char>, Seq<char>)>;

    closed spec fn view(&self) -> Seq<(Seq<char>, Seq<char>)> {
        self.records@.map_values(|r: (String, String)| (r.0@, r.1@))
    }
}

impl CredentialStore {
    /// The hash stored for `username`, if any.
    pub open spec fn hash_of(self, username: Seq<char>) -> Option<Seq<char>> {
        assoc_get(self@, username)
    }

    /// An empty store: the fresh-install state.
    pub fn new() -> (r: Self)
        ensures
            r@ == Seq::<(Seq<char>, Seq<char>)>::empty(),
    {
        let r = CredentialStore { records: Vec::new() };
        proof {
            assert(r@ =~= Seq::<(Seq<char>, Seq<char>)>::empty());
        }
        r
    }

    /// Restores one username/hash record read back from a durable snapshot.
    pub fn insert_record(&mut self, username: String, hash: String)
        ensures
            final(self)@ == old(self)@.push((username@, hash@)),
    {
        let ghost u = username@;
        let ghost h = hash@;
        self.records.push((username, hash));
        proof {
            assert(self@ =~= old(self)@.push((u, h)));
        }
    }

    /// The records in insertion order, for writing a durable snapshot.
    pub fn records(&self) -> (r: &Vec<(String, String)>)
        ensures
            r@.map_values(|p: (String, String)| (p.0@, p.1@)) == self@,
    {
        &self.records
    }

    /// The stored hash for `username`: the record pushed last wins, as on a
    /// map with overwrite-on-insert.
    fn find_hash(&self, username: &String) -> (r: Option<&String>)
        ensures
            match r {
                Some(h) => self.hash_of(username@) == Some(h@),
                None => self.hash_of(username@) is None,
            },
    {
        proof {
            assert(self@.take(self@.len() as int) =~= self@);
        }
        let mut i: usize = self.records.len();
        while i > 0
            invariant
                i <= self.records.len(),
                self@.len() == self.records@.len(),
                assoc_get(self@, username@) == assoc_get(self@.take(i as int), username@),
            decreases i,
        {
            i = i - 1;
            if self.records[i].0 == *username {
                proof {
                    assert(self@.take(i as int + 1).last() == self@[i as int]);
                }
                return Some(&self.records[i].1);
            }
            proof {
                assert(self@.take(i as int + 1).drop_last() =~= self@.take(i as int));
            }
        }
        None
    }

    /// Registers a new user: refused with `DuplicateUser` when the username is
    /// already present, otherwise a salted one-way hash of the password is
    /// stored under it and verifies against that password. Should the hash
    /// primitive itself fail — it is assumed correct, and the failure cannot
    /// arise from any input this store accepts — the registration is refused
    /// as `None` rather than let an unusable record count as a success, and
    /// the store is untouched. The caller persists the store afterwards.
    pub fn register(&mut self, username: &String, password: &String) -> (r: Option<
        Result<(), ServiceError>,
    >)
        ensures
            match r {
                None => assoc_get(old(self)@, username@) is None && final(self)@ == old(self)@,
                Some(res) => match res {
                    Ok(_) => assoc_get(old(self)@, username@) is None && (exists|h: Seq<char>|
                        #![auto]
                        final(self)@ == old(self)@.push((username@, h)) && argon2_matches(
                            password@,
                            h,
                        )),
                    Err(e) => e == ServiceError::DuplicateUser && assoc_get(
                        old(self)@,
                        username@,
                    ) is Some && final(self)@ == old(self)@,
                },
            },
    {
        if self.find_hash(username).is_some() {
            return Some(Err(ServiceError::DuplicateUser));
        }
        let hash = match hash_password(password) {
            Some(h) => h,
            None => {
                return None;
            },
        };
        let ghost hv = hash@;
        self.records.push((username.clone(), hash));
        proof {
            assert(self@ =~= old(self)@.push((username@, hv)));
        }
        Some(Ok(()))
    }

    /// Whether `password` is the password registered for `username`: false
    /// for unknown usernames, and false for a stored hash argon2 cannot
    /// accept — in particular for an empty one, which is no parseable PHC
    /// string.
    pub fn verify(&self, username: &String, password: &String) -> (r: bool)
        ensures
            r == verify_model(self@, username@, password@),
            (match self.hash_of(username@) {
                Some(h) => h.len() == 0,
                None => false,
            }) ==> !r,
    {
        match self.find_hash(username) {
            None => false,
            Some(h) => check_password(password, h),
        }
    }
}

} // verus!
