//! The failures of authentication and authorization, and what a client is
//! told of each.

use vstd::prelude::*;

verus! {

/// Why a request was turned away.
#[derive(Clone, Copy, Debug, PartialEq, Eq, Structural)]
pub enum AuthError {
    /// Wrong username or wrong password at login; the two are not told apart.
    InvalidCredentials,
    /// A stored hash that cannot be read, or a hash that could not be made.
    Hashing,
    /// No session, or one that does not lead to a user.
    Unauthenticated,
    /// A known user without the role that was asked for.
    Forbidden,
    /// The session cache or the user directory could not be reached.
    StoreUnavailable,
}

/// The HTTP status that stands for an error.
pub open spec fn status_of(e: AuthError) -> u16 {
    match e {
        AuthError::InvalidCredentials => 401,
        AuthError::Hashing => 500,
        AuthError::Unauthenticated => 401,
        AuthError::Forbidden => 403,
        AuthError::StoreUnavailable => 500,
    }
}

impl AuthError {
    /// The HTTP status that the client receives.
    pub fn status(&self) -> (code: u16)
        ensures
            code == status_of(*self),
    {
        match self {
            AuthError::InvalidCredentials => 401,
            AuthError::Hashing => 500,
            AuthError::Unauthenticated => 401,
            AuthError::Forbidden => 403,
            AuthError::StoreUnavailable => 500,
        }
    }

    /// The message that the client receives. It depends on the status alone,
    /// so that two errors with one status cannot be told apart by their text.
    pub fn message(&self) -> (text: &'static str)
        ensures
            text@ == message_of(status_of(*self)),
    {
        match self {
            AuthError::InvalidCredentials | AuthError::Unauthenticated => "unauthorized",
            AuthError::Forbidden => "forbidden",
            AuthError::Hashing | AuthError::StoreUnavailable => "internal server error",
        }
    }
}

/// The text that goes with a status.
pub open spec fn message_of(status: u16) -> Seq<char> {
    if status == 401 {
        "unauthorized"@
    } else if status == 403 {
        "forbidden"@
    } else {
        "internal server error"@
    }
}

/// What the client sees of an error is its status and the text of that
/// status: two errors with the same status look the same, and a missing
/// session never looks like a missing role.
pub proof fn lemma_errors_disclose_status_only(a: AuthError, b: AuthError)
    ensures
        status_of(a) == status_of(b) ==> message_of(status_of(a)) == message_of(status_of(b)),
        status_of(AuthError::InvalidCredentials) == status_of(AuthError::Unauthenticated),
        status_of(AuthError::Unauthenticated) != status_of(AuthError::Forbidden),
        status_of(AuthError::StoreUnavailable) >= 500,
        status_of(AuthError::Hashing) >= 500,
{
}

} // verus!
