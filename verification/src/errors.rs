use vstd::prelude::*;

verus! {

/// Every failure a request can surface to a caller. Each maps to a
/// user-visible message; none aborts the process.
#[derive(Clone, Copy, Debug, PartialEq, Eq, Structural)]
pub enum ServiceError {
    /// Registration with a username that is already taken.
    DuplicateUser,
    /// Login with an unknown username or a wrong password; the two are
    /// deliberately indistinguishable.
    InvalidCredentials,
    /// A request that needs a session presented none.
    MissingSessionCredential,
    /// A session credential that was never issued by this process.
    UnknownSessionCredential,
    /// A session credential past its expiry instant.
    ExpiredSessionCredential,
    /// A paste submission whose text is empty or only whitespace; the
    /// handler layer rejects it before any paste is created. The member goes
    /// beyond the original taxonomy, which names none for this rejection —
    /// flagged for product sign-off.
    BlankPasteText,
    /// A paste id that no store entry carries.
    PasteNotFound,
    /// A listing request without the required identifier.
    MissingIdentifier,
    /// A durable snapshot that could not be written; the in-memory mutation
    /// stands regardless.
    PersistenceWriteFailed,
}

impl ServiceError {
    /// The user-visible text of this error.
    pub open spec fn message_spec(self) -> Seq<char> {
        match self {
            ServiceError::DuplicateUser => "user already exists"@,
            ServiceError::InvalidCredentials => "invalid credentials"@,
            ServiceError::MissingSessionCredential => "not authenticated"@,
            ServiceError::UnknownSessionCredential => "invalid session"@,
            ServiceError::ExpiredSessionCredential => "session expired"@,
            ServiceError::BlankPasteText => "empty paste text"@,
            ServiceError::PasteNotFound => "paste not found"@,
            ServiceError::MissingIdentifier => "missing identifier"@,
            ServiceError::PersistenceWriteFailed => "could not persist"@,
        }
    }

    /// The user-visible text of this error.
    pub fn message(&self) -> (r: &'static str)
        ensures
            r@ == self.message_spec(),
    {
        match self {
            ServiceError::DuplicateUser => "user already exists",
            ServiceError::InvalidCredentials => "invalid credentials",
            ServiceError::MissingSessionCredential => "not authenticated",
            ServiceError::UnknownSessionCredential => "invalid session",
            ServiceError::ExpiredSessionCredential => "session expired",
            ServiceError::BlankPasteText => "empty paste text",
            ServiceError::PasteNotFound => "paste not found",
            ServiceError::MissingIdentifier => "missing identifier",
            ServiceError::PersistenceWriteFailed => "could not persist",
        }
    }
}

} // verus!
