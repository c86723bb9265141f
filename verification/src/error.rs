//! What can go wrong, and how each failure is shown to a client.

use vstd::prelude::*;

verus! {

/// The kinds of failure.
#[derive(Clone, Copy, Debug, PartialEq, Eq, Structural)]
pub enum Error {
    /// The request carries no session credential.
    MissingCredential,
    /// The credential names an account that no longer exists.
    StaleCredential,
    /// The store could not be reached within the bounded wait; transient.
    StoreUnavailable,
    /// The user, picture or match asked for does not exist.
    NotFound,
    /// A swipe on this target was recorded before.
    DuplicateSwipe,
    /// A user tried to swipe on themselves.
    InvalidSwipeTarget,
    /// The request body is malformed or incomplete.
    ValidationError,
    /// A blob could not be read or written.
    IOError,
    /// The user name and password do not belong together.
    InvalidLogin,
    /// An account of this name exists already.
    UsernameTaken,
    /// The password primitive failed.
    HashFailure,
}

impl Error {
    /// The status code that stands for this failure: bad input and failed
    /// authentication are 4xx, failing infrastructure is 5xx.
    pub open spec fn status_code(self) -> u16 {
        match self {
            Error::MissingCredential => 400,
            Error::StaleCredential => 400,
            Error::StoreUnavailable => 500,
            Error::NotFound => 404,
            Error::DuplicateSwipe => 409,
            Error::InvalidSwipeTarget => 400,
            Error::ValidationError => 400,
            Error::IOError => 500,
            Error::InvalidLogin => 400,
            Error::UsernameTaken => 409,
            Error::HashFailure => 500,
        }
    }

    /// Whether the failure lies with the client's request rather than with
    /// the infrastructure.
    pub open spec fn blames_client(self) -> bool {
        !(self == Error::StoreUnavailable || self == Error::IOError || self == Error::HashFailure)
    }

    /// The human-readable text that stands for this failure.
    pub open spec fn text(self) -> Seq<char> {
        match self {
            Error::MissingCredential => "missing username from session cookie"@,
            Error::StaleCredential => "session refers to an account that does not exist"@,
            Error::StoreUnavailable => "store unavailable"@,
            Error::NotFound => "not found"@,
            Error::DuplicateSwipe => "already swiped on this user"@,
            Error::InvalidSwipeTarget => "cannot swipe on yourself"@,
            Error::ValidationError => "invalid request"@,
            Error::IOError => "picture storage failed"@,
            Error::InvalidLogin => "username or password incorrect"@,
            Error::UsernameTaken => "username already taken"@,
            Error::HashFailure => "password could not be processed"@,
        }
    }

    /// The status code of the failure.
    pub fn status(&self) -> (code: u16)
        ensures
            code == self.status_code(),
            400 <= code < 500 <==> self.blames_client(),
            500 <= code < 600 <==> !self.blames_client(),
    {
        match self {
            Error::MissingCredential => 400,
            Error::StaleCredential => 400,
            Error::StoreUnavailable => 500,
            Error::NotFound => 404,
            Error::DuplicateSwipe => 409,
            Error::InvalidSwipeTarget => 400,
            Error::ValidationError => 400,
            Error::IOError => 500,
            Error::InvalidLogin => 400,
            Error::UsernameTaken => 409,
            Error::HashFailure => 500,
        }
    }

    /// The message shown to the client.
    pub fn message(&self) -> (m: String)
        ensures
            m@ == self.text(),
    {
        match self {
            Error::MissingCredential => "missing username from session cookie".to_owned(),
            Error::StaleCredential => "session refers to an account that does not exist".to_owned(),
            Error::StoreUnavailable => "store unavailable".to_owned(),
            Error::NotFound => "not found".to_owned(),
            Error::DuplicateSwipe => "already swiped on this user".to_owned(),
            Error::InvalidSwipeTarget => "cannot swipe on yourself".to_owned(),
            Error::ValidationError => "invalid request".to_owned(),
            Error::IOError => "picture storage failed".to_owned(),
            Error::InvalidLogin => "username or password incorrect".to_owned(),
            Error::UsernameTaken => "username already taken".to_owned(),
            Error::HashFailure => "password could not be processed".to_owned(),
        }
    }

    /// Whether a client may simply try again.
    pub fn is_transient(&self) -> (t: bool)
        ensures
            t == (*self == Error::StoreUnavailable),
    {
        match self {
            Error::StoreUnavailable => true,
            _ => false,
        }
    }
}

} // verus!
