//! Logging in: password validation, then either a session token or a
//! two-factor challenge.

use vstd::prelude::*;
use vstd::string::StringExecFns;
use crate::domain::data_stores::{
    is_login_attempt_id, is_two_fa_code, validate_outcome, LoginAttemptId, TwoFACode,
    TwoFACodeStore, UserStore, UserStoreError,
};
use crate::domain::email::Email;
use crate::domain::email_client::EmailClient;
use crate::domain::error::AuthAPIError;
use crate::domain::user::{User, UserView};
use crate::routes::signup::{credentials_well_formed, parse_credentials};
use crate::utils::auth::{issued_token, GenerateTokenError, TokenCodec};
use crate::utils::hashing::hash_check;

verus! {

/// A request to log in.
#[derive(Debug)]
pub struct LoginRequest {
    pub email: String,
    pub password: String,
}

/// The body of the answer to a login that waits for its second factor.
#[derive(Debug)]
pub struct TwoFactorAuthResponse {
    pub message: String,
    pub login_attempt_id: String,
}

/// The body of the answer to a login whose password was right.
#[derive(Debug)]
pub enum LoginResponse {
    /// The session is open.
    RegularAuth,
    /// The second factor is pending.
    TwoFactorAuth(TwoFactorAuthResponse),
}

/// A login whose password was right: the body of the answer, and the
/// session token to attach to it, if the session is open.
#[derive(Debug)]
pub struct LoginSuccess {
    pub token: Option<String>,
    pub response: LoginResponse,
}

/// The subject of the message that carries a two-factor code.
pub open spec fn two_fa_subject() -> Seq<char> {
    "2FA token"@
}

/// The message that carries the two-factor code `code`.
pub open spec fn two_fa_content(code: Seq<char>) -> Seq<char> {
    "Your 2FA code is: "@ + code
}

/// The message of the answer to a login that waits for its second factor.
pub open spec fn two_fa_required_message() -> Seq<char> {
    "2FA required"@
}

/// The HTTP status that stands for a body: 200 for an open session, 206
/// for a pending second factor.
pub open spec fn login_status_of(response: LoginResponse) -> u16 {
    match response {
        LoginResponse::RegularAuth => 200,
        LoginResponse::TwoFactorAuth(_) => 206,
    }
}

impl LoginResponse {
    /// The HTTP status that stands for this body.
    pub fn status_code(&self) -> (status: u16)
        ensures
            status == login_status_of(*self),
    {
        match self {
            LoginResponse::RegularAuth => 200,
            LoginResponse::TwoFactorAuth(_) => 206,
        }
    }
}

/// Subject and content of the message that carries the two-factor code
/// `code` to its owner.
pub fn two_fa_email(code: &TwoFACode) -> (message: (&'static str, String))
    ensures
        message.0@ == two_fa_subject(),
        message.1@ == two_fa_content(code@),
{
    ("2FA token", "Your 2FA code is: ".to_owned().concat(code.as_ref()))
}

/// What a refusal of the credential store means to one who logs in. An
/// unknown email and a wrong password are told in the same words.
pub open spec fn login_error_of(e: UserStoreError) -> AuthAPIError {
    match e {
        UserStoreError::UserNotFound => AuthAPIError::IncorrectCredentials,
        UserStoreError::InvalidCredentials => AuthAPIError::IncorrectCredentials,
        _ => AuthAPIError::UnexpectedError,
    }
}

/// What a refusal of the credential store means to one who logs in.
pub fn login_error(e: UserStoreError) -> (error: AuthAPIError)
    ensures
        error == login_error_of(e),
{
    match e {
        UserStoreError::UserNotFound => AuthAPIError::IncorrectCredentials,
        UserStoreError::InvalidCredentials => AuthAPIError::IncorrectCredentials,
        _ => AuthAPIError::UnexpectedError,
    }
}

/// An unknown email and a wrong password both fail to validate, and one
/// who logs in is told the same of both.
pub proof fn lemma_failures_indistinguishable(
    users: Map<Seq<char>, UserView>,
    unknown_email: Seq<char>,
    known_email: Seq<char>,
    password: Seq<char>,
    wrong_password: Seq<char>,
)
    requires
        !users.contains_key(unknown_email),
        users.contains_key(known_email),
        hash_check(users[known_email].password, wrong_password) == Some(false),
    ensures
        validate_outcome(users, unknown_email, password) == Err::<UserView, UserStoreError>(
            UserStoreError::UserNotFound,
        ),
        validate_outcome(users, known_email, wrong_password) == Err::<UserView, UserStoreError>(
            UserStoreError::InvalidCredentials,
        ),
        login_error_of(UserStoreError::UserNotFound) == login_error_of(
            UserStoreError::InvalidCredentials,
        ),
        login_error_of(UserStoreError::UserNotFound) == AuthAPIError::IncorrectCredentials,
{
}

/// The answer to a login without second factor, once the codec has given
/// `issued`: the token rides with the answer, and a token that could not be
/// issued is an unexpected error.
pub fn session_reply(issued: Result<String, GenerateTokenError>) -> (r: Result<
    LoginSuccess,
    AuthAPIError,
>)
    ensures
        match issued {
            Ok(token) => r matches Ok(success) && success.token == Some(token)
                && success.response is RegularAuth,
            Err(_) => r matches Err(AuthAPIError::UnexpectedError),
        },
{
    match issued {
        Ok(token) => Ok(LoginSuccess { token: Some(token), response: LoginResponse::RegularAuth }),
        Err(_) => Err(AuthAPIError::UnexpectedError),
    }
}

/// The answer to a login with second factor, once the challenge is stored
/// and the notification channel has given `sent`: the attempt identifier
/// goes back to the caller, without any token, and a code that could not be
/// sent is an unexpected error.
pub fn two_factor_reply(sent: Result<(), String>, login_attempt_id: &LoginAttemptId) -> (r: Result<
    LoginSuccess,
    AuthAPIError,
>)
    ensures
        match sent {
            Ok(()) => r matches Ok(success) && success.token is None && (
            success.response matches LoginResponse::TwoFactorAuth(body) && body.message@
                == two_fa_required_message() && body.login_attempt_id@ == login_attempt_id@),
            Err(_) => r matches Err(AuthAPIError::UnexpectedError),
        },
{
    match sent {
        Ok(()) => Ok(
            LoginSuccess {
                token: None,
                response: LoginResponse::TwoFactorAuth(
                    TwoFactorAuthResponse {
                        message: "2FA required".to_owned(),
                        login_attempt_id: login_attempt_id.as_ref().to_owned(),
                    },
                ),
            },
        ),
        Err(_) => Err(AuthAPIError::UnexpectedError),
    }
}

/// Whether a two-factor answer carries no token, the message that asks for
/// the second factor, and the attempt identifier `login_attempt_id`.
pub open spec fn asks_for_second_factor(success: LoginSuccess, login_attempt_id: Seq<char>) -> bool {
    &&& success.token is None
    &&& success.response matches LoginResponse::TwoFactorAuth(body) && body.message@
        == two_fa_required_message() && body.login_attempt_id@ == login_attempt_id
}

/// Whether the challenges `after` are the challenges `before` with a new
/// live challenge for `email`: some attempt identifier and some six-digit
/// code, in place of any earlier one.
pub open spec fn challenge_filed(
    before: Map<Seq<char>, (Seq<char>, Seq<char>)>,
    email: Seq<char>,
    after: Map<Seq<char>, (Seq<char>, Seq<char>)>,
) -> bool {
    &&& after.contains_key(email)
    &&& after == before.insert(email, after[email])
    &&& is_login_attempt_id(after[email].0)
    &&& is_two_fa_code(after[email].1)
}

/// Whether the challenges `after` are the challenges `before` with a new
/// live challenge for `email` that carries the attempt identifier
/// `login_attempt_id`.
pub open spec fn fresh_challenge_filed(
    before: Map<Seq<char>, (Seq<char>, Seq<char>)>,
    email: Seq<char>,
    login_attempt_id: Seq<char>,
    after: Map<Seq<char>, (Seq<char>, Seq<char>)>,
) -> bool {
    challenge_filed(before, email, after) && after[email].0 == login_attempt_id
}

/// What a login with second factor answers: the message that asks for the
/// second factor with an attempt identifier and without a token, or an
/// unexpected error.
pub open spec fn two_factor_answer(r: Result<LoginSuccess, AuthAPIError>) -> bool {
    match r {
        Ok(success) => success.response matches LoginResponse::TwoFactorAuth(body)
            && asks_for_second_factor(success, body.login_attempt_id@) && is_login_attempt_id(
            body.login_attempt_id@,
        ),
        Err(e) => e == AuthAPIError::UnexpectedError,
    }
}

/// What a login with second factor does to the challenges `before`: on
/// success the email has a fresh challenge with the identifier of the
/// answer; on failure the challenges are what they were, or the email has a
/// fresh challenge.
pub open spec fn two_factor_stored(
    before: Map<Seq<char>, (Seq<char>, Seq<char>)>,
    email: Seq<char>,
    r: Result<LoginSuccess, AuthAPIError>,
    after: Map<Seq<char>, (Seq<char>, Seq<char>)>,
) -> bool {
    match r {
        Ok(success) => success.response matches LoginResponse::TwoFactorAuth(body)
            && fresh_challenge_filed(before, email, body.login_attempt_id@, after),
        Err(_) => after == before || challenge_filed(before, email, after),
    }
}

/// Files the challenge `(login_attempt_id, code)` for `email`, replacing
/// any earlier one, and sends the code. A store that fails keeps what it
/// had; a code that cannot be sent leaves the new challenge behind.
pub fn start_two_factor<T: TwoFACodeStore, E: EmailClient>(
    email: &Email,
    two_fa_code_store: &mut T,
    email_client: &E,
    login_attempt_id: LoginAttemptId,
    code: TwoFACode,
) -> (r: Result<LoginSuccess, AuthAPIError>)
    ensures
        match r {
            Ok(success) => asks_for_second_factor(success, login_attempt_id@),
            Err(e) => e == AuthAPIError::UnexpectedError,
        },
        T::modelled() ==> match r {
            Ok(_) => final(two_fa_code_store).codes() == old(two_fa_code_store).codes().insert(
                email@,
                (login_attempt_id@, code@),
            ),
            Err(_) => final(two_fa_code_store).codes() == old(two_fa_code_store).codes() || final(
                two_fa_code_store
            ).codes() == old(two_fa_code_store).codes().insert(
                email@,
                (login_attempt_id@, code@),
            ),
        },
{
    let stored = two_fa_code_store.add_code(email.clone(), login_attempt_id.clone(), code.clone());
    if stored.is_err() {
        return Err(AuthAPIError::UnexpectedError);
    }
    let (subject, content) = two_fa_email(&code);
    let sent = email_client.send_email(email, subject, content.as_str());
    two_factor_reply(sent, &login_attempt_id)
}

/// Answers a login whose password was right and whose user asks for a
/// second factor: a fresh attempt identifier and a fresh code become the
/// one live challenge of `email`. Whatever is answered, no other email
/// gains or loses a challenge.
pub fn handle_2fa<T: TwoFACodeStore, E: EmailClient>(
    email: &Email,
    two_fa_code_store: &mut T,
    email_client: &E,
) -> (r: Result<LoginSuccess, AuthAPIError>)
    ensures
        two_factor_answer(r),
        T::modelled() ==> two_factor_stored(
            old(two_fa_code_store).codes(),
            email@,
            r,
            final(two_fa_code_store).codes(),
        ),
{
    let login_attempt_id = LoginAttemptId::default();
    let code = TwoFACode::default();
    start_two_factor(email, two_fa_code_store, email_client, login_attempt_id, code)
}

/// Whether a session answer carries the token that `secret` issues to
/// `email` with the expiry instant `expiry`.
pub open spec fn opens_session(
    success: LoginSuccess,
    secret: Seq<char>,
    email: Seq<char>,
    expiry: int,
) -> bool {
    &&& success.response is RegularAuth
    &&& 0 <= expiry <= u64::MAX
    &&& success.token matches Some(token) && token@ == issued_token(secret, email, expiry as nat)
}

/// What a login without second factor answers: the session token of
/// `email` with the expiry instant `expiry`, or an unexpected error where
/// that instant does not fit in sixty-four bits.
pub open spec fn session_answer(
    r: Result<LoginSuccess, AuthAPIError>,
    secret: Seq<char>,
    email: Seq<char>,
    expiry: int,
) -> bool {
    match r {
        Ok(success) => opens_session(success, secret, email, expiry),
        Err(e) => e == AuthAPIError::UnexpectedError && expiry > u64::MAX,
    }
}

/// Answers a login whose password was right and whose user asks for no
/// second factor: a session token for `email`, issued at the instant `now`.
pub fn handle_no_2fa(email: &Email, token_codec: &TokenCodec, now: u64) -> (r: Result<
    LoginSuccess,
    AuthAPIError,
>)
    ensures
        session_answer(r, token_codec.secret(), email@, now + token_codec.ttl()),
{
    session_reply(token_codec.issue(email, now))
}

/// Answers a login once the credential store has answered `validated` to
/// the credentials of `email`. A refusal of the store is told, an unknown
/// email and a wrong password in the same words, and no challenge changes.
/// A record that asks for no second factor gets its session token, and no
/// challenge changes. A record that asks for one gets a fresh challenge.
pub fn login_validated<T: TwoFACodeStore, E: EmailClient>(
    validated: Result<User, UserStoreError>,
    email: &Email,
    two_fa_code_store: &mut T,
    email_client: &E,
    token_codec: &TokenCodec,
    now: u64,
) -> (r: Result<LoginSuccess, AuthAPIError>)
    ensures
        match validated {
            Err(e) => {
                &&& r == Err::<LoginSuccess, AuthAPIError>(login_error_of(e))
                &&& final(two_fa_code_store).codes() == old(two_fa_code_store).codes()
            },
            Ok(user) => if user.requires_2fa {
                &&& two_factor_answer(r)
                &&& T::modelled() ==> two_factor_stored(
                    old(two_fa_code_store).codes(),
                    email@,
                    r,
                    final(two_fa_code_store).codes(),
                )
            } else {
                &&& session_answer(r, token_codec.secret(), email@, now + token_codec.ttl())
                &&& final(two_fa_code_store).codes() == old(two_fa_code_store).codes()
            },
        },
{
    match validated {
        Err(e) => Err(login_error(e)),
        Ok(user) => if user.requires_2fa {
            handle_2fa(email, two_fa_code_store, email_client)
        } else {
            handle_no_2fa(email, token_codec, now)
        },
    }
}

/// What a login answers where the credential store has a model: a granted
/// login validated against the records, with a second factor exactly where
/// the record asks for one, and `IncorrectCredentials` is an unknown email
/// or a wrong password.
pub open spec fn login_post(
    users: Map<Seq<char>, UserView>,
    email: Seq<char>,
    password: Seq<char>,
    r: Result<LoginSuccess, AuthAPIError>,
) -> bool {
    match r {
        Ok(success) => validate_outcome(users, email, password) matches Ok(user) && (
        user.requires_2fa <==> success.response is TwoFactorAuth),
        Err(AuthAPIError::IncorrectCredentials) => validate_outcome(users, email, password)
            matches Err(e) && login_error_of(e) == AuthAPIError::IncorrectCredentials,
        Err(_) => true,
    }
}

/// What a login does to the challenges `before` where the challenge store
/// has a model: a pending second factor is a fresh challenge for the email
/// with the identifier of the answer; an unexpected error leaves the
/// challenges as they were or files a fresh one for the email; every other
/// answer leaves them as they were.
pub open spec fn login_challenges_post(
    before: Map<Seq<char>, (Seq<char>, Seq<char>)>,
    email: Seq<char>,
    r: Result<LoginSuccess, AuthAPIError>,
    after: Map<Seq<char>, (Seq<char>, Seq<char>)>,
) -> bool {
    match r {
        Ok(success) => match success.response {
            LoginResponse::TwoFactorAuth(body) => fresh_challenge_filed(
                before,
                email,
                body.login_attempt_id@,
                after,
            ),
            LoginResponse::RegularAuth => after == before,
        },
        Err(AuthAPIError::UnexpectedError) => after == before || challenge_filed(
            before,
            email,
            after,
        ),
        Err(_) => after == before,
    }
}

/// Logs in the user of `request` at the instant `now`.
///
/// A malformed email or password is `InvalidCredentials`, and nothing else
/// is; no store is touched. An unknown email and a wrong password are both
/// `IncorrectCredentials`. A right password opens a session for the email
/// of the request where the user asks for no second factor, and else files
/// a fresh challenge for that email, which replaces any earlier one, and
/// hands back its attempt identifier without a token. Only the email of
/// the request can lose or gain a challenge.
pub fn login<U: UserStore, T: TwoFACodeStore, E: EmailClient>(
    user_store: &U,
    two_fa_code_store: &mut T,
    email_client: &E,
    token_codec: &TokenCodec,
    now: u64,
    request: LoginRequest,
) -> (r: Result<LoginSuccess, AuthAPIError>)
    ensures
        credentials_well_formed(request.email@, request.password@) <==> !(r matches Err(
            AuthAPIError::InvalidCredentials,
        )),
        match r {
            Ok(success) => match success.response {
                LoginResponse::RegularAuth => {
                    &&& opens_session(
                        success,
                        token_codec.secret(),
                        request.email@,
                        now + token_codec.ttl(),
                    )
                    &&& final(two_fa_code_store).codes() == old(two_fa_code_store).codes()
                },
                LoginResponse::TwoFactorAuth(body) => {
                    &&& asks_for_second_factor(success, body.login_attempt_id@)
                    &&& is_login_attempt_id(body.login_attempt_id@)
                },
            },
            Err(AuthAPIError::InvalidCredentials) => final(two_fa_code_store).codes() == old(
                two_fa_code_store
            ).codes(),
            Err(AuthAPIError::IncorrectCredentials) => final(two_fa_code_store).codes() == old(
                two_fa_code_store
            ).codes(),
            Err(AuthAPIError::UnexpectedError) => true,
            Err(_) => false,
        },
        U::modelled() ==> login_post(user_store.users(), request.email@, request.password@, r),
        T::modelled() ==> login_challenges_post(
            old(two_fa_code_store).codes(),
            request.email@,
            r,
            final(two_fa_code_store).codes(),
        ),
{
    let (email, password) = match parse_credentials(request.email, request.password) {
        Ok(parsed) => parsed,
        Err(e) => {
            return Err(e);
        },
    };
    let validated = user_store.validate_user(&email, &password);
    login_validated(validated, &email, two_fa_code_store, email_client, token_codec, now)
}

} // verus!
