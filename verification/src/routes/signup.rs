//! Signing up: a new user record.

use vstd::prelude::*;
use crate::domain::data_stores::{add_user_post, UserStore, UserStoreError};
use crate::domain::email::{is_email_address, Email};
use crate::domain::error::AuthAPIError;
use crate::domain::password::{is_valid_password, Password};
use crate::domain::user::{User, UserView};

verus! {

/// A request to sign up.
#[derive(Debug)]
pub struct SignupRequest {
    pub email: String,
    pub password: String,
    pub requires_2fa: bool,
}

/// The answer to a sign-up that was carried out.
#[derive(Debug)]
pub struct SignupResponse {
    pub message: String,
}

/// The message of a sign-up that was carried out.
pub open spec fn signup_message() -> Seq<char> {
    "User created successfully"@
}

/// Whether `email` and `password` can be an identity and its raw password.
pub open spec fn credentials_well_formed(email: Seq<char>, password: Seq<char>) -> bool {
    is_email_address(email) && is_valid_password(password)
}

/// Turns the texts of a request into an email and a password, before any
/// store is touched. Malformed texts are `InvalidCredentials`.
pub fn parse_credentials(email: String, password: String) -> (r: Result<
    (Email, Password),
    AuthAPIError,
>)
    ensures
        match r {
            Ok(parsed) => credentials_well_formed(email@, password@) && parsed.0@ == email@
                && parsed.1@ == password@,
            Err(e) => !credentials_well_formed(email@, password@) && e
                == AuthAPIError::InvalidCredentials,
        },
{
    match (Email::parse(email), Password::parse(password)) {
        (Ok(email), Ok(password)) => Ok((email, password)),
        _ => Err(AuthAPIError::InvalidCredentials),
    }
}

/// What a refusal of the credential store means to one who signs up: a
/// taken email is told, everything else is an unexpected error.
pub open spec fn signup_error_of(e: UserStoreError) -> AuthAPIError {
    match e {
        UserStoreError::UserAlreadyExists => AuthAPIError::UserAlreadyExists,
        _ => AuthAPIError::UnexpectedError,
    }
}

/// What a refusal of the credential store means to one who signs up.
pub fn signup_error(e: UserStoreError) -> (error: AuthAPIError)
    ensures
        error == signup_error_of(e),
{
    match e {
        UserStoreError::UserAlreadyExists => AuthAPIError::UserAlreadyExists,
        _ => AuthAPIError::UnexpectedError,
    }
}

/// The user that a request asks to sign up.
pub open spec fn requested_user(request: SignupRequest) -> UserView {
    UserView {
        email: request.email@,
        password: request.password@,
        requires_2fa: request.requires_2fa,
    }
}

/// Signs up the user of `request`. A malformed email or password is
/// `InvalidCredentials`, and nothing else is; it is refused before the store
/// is touched. A taken email is told, and no failure leaves a trace in the
/// store.
pub fn signup<U: UserStore>(user_store: &mut U, request: SignupRequest) -> (r: Result<
    SignupResponse,
    AuthAPIError,
>)
    ensures
        credentials_well_formed(request.email@, request.password@) <==> !(r matches Err(
            AuthAPIError::InvalidCredentials,
        )),
        !credentials_well_formed(request.email@, request.password@) ==> final(user_store).users()
            == old(user_store).users(),
        r is Ok ==> r->Ok_0.message@ == signup_message(),
        U::modelled() ==> match r {
            Ok(_) => add_user_post(
                old(user_store).users(),
                requested_user(request),
                Ok(()),
                final(user_store).users(),
            ),
            Err(AuthAPIError::InvalidCredentials) => true,
            Err(AuthAPIError::UserAlreadyExists) => {
                &&& old(user_store).users().contains_key(request.email@)
                &&& final(user_store).users() == old(user_store).users()
            },
            Err(AuthAPIError::UnexpectedError) => final(user_store).users() == old(
                user_store,
            ).users(),
            Err(_) => false,
        },
{
    let (email, password) = match parse_credentials(request.email, request.password) {
        Ok(parsed) => parsed,
        Err(e) => {
            return Err(e);
        },
    };
    let user = User::new(email, password, request.requires_2fa);
    match user_store.add_user(user) {
        Ok(()) => Ok(SignupResponse { message: "User created successfully".to_owned() }),
        Err(e) => Err(signup_error(e)),
    }
}

} // verus!
