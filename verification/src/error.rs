//! The failures the library reports.

use vstd::prelude::*;

verus! {

/// Why an operation did not succeed.
#[derive(Clone, Copy, Debug, PartialEq, Eq, Structural)]
pub enum Error {
    /// An identifier or a payload is malformed.
    ValidationError,
    /// No record matches.
    NotFound,
    /// The caller is not logged in, or its role does not suffice.
    Unauthorized,
    /// The provider did not exchange the authorization code for a token.
    ExchangeError,
    /// The provider did not hand out the user's profile.
    ProfileFetchError,
    /// The store refused or failed the operation.
    StorageError,
}

impl Error {
    /// The HTTP status under which the failure is reported.
    pub open spec fn status_spec(self) -> u16 {
        match self {
            Error::ValidationError => 400,
            Error::NotFound => 400,
            Error::Unauthorized => 401,
            Error::ExchangeError => 400,
            Error::ProfileFetchError => 500,
            Error::StorageError => 500,
        }
    }

    pub fn status(self) -> (code: u16)
        ensures
            code == self.status_spec(),
    {
        match self {
            Error::ValidationError => 400,
            Error::NotFound => 400,
            Error::Unauthorized => 401,
            Error::ExchangeError => 400,
            Error::ProfileFetchError => 500,
            Error::StorageError => 500,
        }
    }
}

} // verus!
