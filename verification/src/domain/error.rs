//! The error taxonomy the flows answer with.

use vstd::prelude::*;

verus! {

/// Every failure a flow can report to a caller.
#[derive(Clone, Copy, Debug, PartialEq, Eq, Structural)]
pub enum AuthAPIError {
    IncorrectCredentials,
    InvalidCredentials,
    InvalidToken,
    MalformedToken,
    MissingToken,
    UserAlreadyExists,
    UnexpectedError,
}

impl AuthAPIError {
    /// The HTTP status each failure maps to.
    pub open spec fn spec_status_code(self) -> u16 {
        match self {
            AuthAPIError::IncorrectCredentials => 401,
            AuthAPIError::InvalidCredentials => 400,
            AuthAPIError::InvalidToken => 401,
            AuthAPIError::MalformedToken => 422,
            AuthAPIError::MissingToken => 400,
            AuthAPIError::UserAlreadyExists => 409,
            AuthAPIError::UnexpectedError => 500,
        }
    }

    /// The HTTP status this failure maps to.
    pub fn status_code(&self) -> (r: u16)
        ensures
            r == self.spec_status_code(),
    {
        match self {
            AuthAPIError::IncorrectCredentials => 401,
            AuthAPIError::InvalidCredentials => 400,
            AuthAPIError::InvalidToken => 401,
            AuthAPIError::MalformedToken => 422,
            AuthAPIError::MissingToken => 400,
            AuthAPIError::UserAlreadyExists => 409,
            AuthAPIError::UnexpectedError => 500,
        }
    }

    /// The message shown for each failure; internal causes never appear here.
    pub open spec fn spec_message(self) -> Seq<char> {
        match self {
            AuthAPIError::IncorrectCredentials => "Incorrect credentials"@,
            AuthAPIError::InvalidCredentials => "Invalid credentials"@,
            AuthAPIError::InvalidToken => "Invalid token"@,
            AuthAPIError::MalformedToken => "Malformed token"@,
            AuthAPIError::MissingToken => "Missing token"@,
            AuthAPIError::UserAlreadyExists => "User already exists"@,
            AuthAPIError::UnexpectedError => "Unexpected error"@,
        }
    }

    /// The message shown for this failure.
    pub fn message(&self) -> (r: String)
        ensures
            r@ == self.spec_message(),
    {
        match self {
            AuthAPIError::IncorrectCredentials => String::from_str("Incorrect credentials"),
            AuthAPIError::InvalidCredentials => String::from_str("Invalid credentials"),
            AuthAPIError::InvalidToken => String::from_str("Invalid token"),
            AuthAPIError::MalformedToken => String::from_str("Malformed token"),
            AuthAPIError::MissingToken => String::from_str("Missing token"),
            AuthAPIError::UserAlreadyExists => String::from_str("User already exists"),
            AuthAPIError::UnexpectedError => String::from_str("Unexpected error"),
        }
    }
}

} // verus!
