//! The outcomes that the request-level operations report.

use vstd::prelude::*;

verus! {

/// Why a request was refused. `IncorrectCredentials` stands for an unknown
/// email as well as for a wrong password, and `InvalidToken` for a forged,
/// an expired and a banned token alike.
#[derive(Debug, Clone, Copy, PartialEq, Eq, Structural)]
pub enum AuthAPIError {
    UserAlreadyExists,
    InvalidCredentials,
    UnexpectedError,
    IncorrectCredentials,
    MissingToken,
    InvalidToken,
    Invalid2FACodeRequest,
}

/// The HTTP status that stands for `error`.
pub open spec fn status_of(error: AuthAPIError) -> u16 {
    match error {
        AuthAPIError::UserAlreadyExists => 409,
        AuthAPIError::InvalidCredentials => 400,
        AuthAPIError::IncorrectCredentials => 401,
        AuthAPIError::UnexpectedError => 500,
        AuthAPIError::InvalidToken => 401,
        AuthAPIError::MissingToken => 400,
        AuthAPIError::Invalid2FACodeRequest => 400,
    }
}

/// The message that tells a caller of `error`.
pub open spec fn message_of(error: AuthAPIError) -> Seq<char> {
    match error {
        AuthAPIError::UserAlreadyExists => "User already exists"@,
        AuthAPIError::InvalidCredentials => "Invalid credentials"@,
        AuthAPIError::IncorrectCredentials => "Incorrect credentials"@,
        AuthAPIError::UnexpectedError => "Internal server error"@,
        AuthAPIError::InvalidToken => "Invalid token"@,
        AuthAPIError::MissingToken => "Missing token"@,
        AuthAPIError::Invalid2FACodeRequest => "Invalid 2FA code"@,
    }
}

impl AuthAPIError {
    /// The HTTP status that stands for this error.
    pub fn status_code(&self) -> (status: u16)
        ensures
            status == status_of(*self),
    {
        match self {
            AuthAPIError::UserAlreadyExists => 409,
            AuthAPIError::InvalidCredentials => 400,
            AuthAPIError::IncorrectCredentials => 401,
            AuthAPIError::UnexpectedError => 500,
            AuthAPIError::InvalidToken => 401,
            AuthAPIError::MissingToken => 400,
            AuthAPIError::Invalid2FACodeRequest => 400,
        }
    }

    /// The message that tells a caller of this error. It never says what
    /// went wrong inside.
    pub fn message(&self) -> (message: &'static str)
        ensures
            message@ == message_of(*self),
    {
        match self {
            AuthAPIError::UserAlreadyExists => "User already exists",
            AuthAPIError::InvalidCredentials => "Invalid credentials",
            AuthAPIError::IncorrectCredentials => "Incorrect credentials",
            AuthAPIError::UnexpectedError => "Internal server error",
            AuthAPIError::InvalidToken => "Invalid token",
            AuthAPIError::MissingToken => "Missing token",
            AuthAPIError::Invalid2FACodeRequest => "Invalid 2FA code",
        }
    }

    /// The body that reports this error.
    pub fn response(&self) -> (body: ErrorResponse)
        ensures
            body.error@ == message_of(*self),
    {
        ErrorResponse { error: self.message().to_owned() }
    }
}

/// The body of a response that reports an error.
#[derive(Debug)]
pub struct ErrorResponse {
    pub error: String,
}

} // verus!
