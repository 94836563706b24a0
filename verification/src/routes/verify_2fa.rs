//! Verifying the second factor of a login.

use vstd::prelude::*;
use crate::domain::data_stores::{
    is_login_attempt_id, is_two_fa_code, LoginAttemptId, TwoFACode, TwoFACodeStore,
    TwoFACodeStoreError,
};
use crate::domain::email::{is_email_address, Email};
use crate::domain::error::AuthAPIError;
use crate::utils::auth::{issued_token, token_verdict, TokenCodec, TokenError};

verus! {

/// A request to verify a second factor.
#[derive(Debug)]
pub struct Verify2FARequest {
    pub email: String,
    pub login_attempt_id: String,
    pub two_fa_code: String,
}

/// Whether the three texts of a request are an email, an attempt
/// identifier and a code.
pub open spec fn second_factor_well_formed(
    email: Seq<char>,
    login_attempt_id: Seq<char>,
    code: Seq<char>,
) -> bool {
    is_email_address(email) && is_login_attempt_id(login_attempt_id) && is_two_fa_code(code)
}

/// Whether `(login_attempt_id, code)` is the live challenge of `email`.
pub open spec fn challenge_matches(
    codes: Map<Seq<char>, (Seq<char>, Seq<char>)>,
    email: Seq<char>,
    login_attempt_id: Seq<char>,
    code: Seq<char>,
) -> bool {
    codes.contains_key(email) && codes[email] == (login_attempt_id, code)
}

/// What verifying `(login_attempt_id, code)` for `email` does to the live
/// challenges: a match is accepted and consumes the challenge, anything
/// else is refused and changes nothing.
pub open spec fn second_factor_outcome(
    codes: Map<Seq<char>, (Seq<char>, Seq<char>)>,
    email: Seq<char>,
    login_attempt_id: Seq<char>,
    code: Seq<char>,
) -> (bool, Map<Seq<char>, (Seq<char>, Seq<char>)>) {
    if challenge_matches(codes, email, login_attempt_id, code) {
        (true, codes.remove(email))
    } else {
        (false, codes)
    }
}

/// A second challenge for an email puts an end to the first: the pair that
/// the first one would have accepted is refused, unless the second
/// challenge is that very pair.
pub proof fn lemma_new_challenge_invalidates_old(
    codes: Map<Seq<char>, (Seq<char>, Seq<char>)>,
    email: Seq<char>,
    first: (Seq<char>, Seq<char>),
    second: (Seq<char>, Seq<char>),
)
    requires
        first != second,
    ensures
        second_factor_outcome(codes.insert(email, first), email, first.0, first.1).0,
        !second_factor_outcome(
            codes.insert(email, first).insert(email, second),
            email,
            first.0,
            first.1,
        ).0,
        second_factor_outcome(
            codes.insert(email, first).insert(email, second),
            email,
            second.0,
            second.1,
        ).0,
{
}

/// A challenge is good for one verification: once a pair was accepted, the
/// same pair is refused.
pub proof fn lemma_challenge_consumed(
    codes: Map<Seq<char>, (Seq<char>, Seq<char>)>,
    email: Seq<char>,
    login_attempt_id: Seq<char>,
    code: Seq<char>,
)
    requires
        second_factor_outcome(codes, email, login_attempt_id, code).0,
    ensures
        !second_factor_outcome(
            second_factor_outcome(codes, email, login_attempt_id, code).1,
            email,
            login_attempt_id,
            code,
        ).0,
        second_factor_outcome(
            second_factor_outcome(codes, email, login_attempt_id, code).1,
            email,
            login_attempt_id,
            code,
        ).1 == second_factor_outcome(codes, email, login_attempt_id, code).1,
{
}

/// Turns the texts of a request into an email, an attempt identifier and a
/// code, before any store is touched. Malformed texts are
/// `Invalid2FACodeRequest`.
pub fn parse_second_factor(request: Verify2FARequest) -> (r: Result<
    (Email, LoginAttemptId, TwoFACode),
    AuthAPIError,
>)
    ensures
        match r {
            Ok(parsed) => {
                &&& second_factor_well_formed(
                    request.email@,
                    request.login_attempt_id@,
                    request.two_fa_code@,
                )
                &&& parsed.0@ == request.email@
                &&& parsed.1@ == request.login_attempt_id@
                &&& parsed.2@ == request.two_fa_code@
            },
            Err(e) => e == AuthAPIError::Invalid2FACodeRequest && !second_factor_well_formed(
                request.email@,
                request.login_attempt_id@,
                request.two_fa_code@,
            ),
        },
{
    let code = TwoFACode::parse(request.two_fa_code.as_str());
    match (Email::parse(request.email), LoginAttemptId::parse(request.login_attempt_id), code) {
        (Ok(email), Ok(login_attempt_id), Ok(code)) => Ok((email, login_attempt_id, code)),
        _ => Err(AuthAPIError::Invalid2FACodeRequest),
    }
}

/// Whether the challenge that the store gave for an email is the pair that
/// was presented: a missing challenge and a pair that differs in either
/// part are both `IncorrectCredentials`.
pub fn check_challenge(
    stored: Result<(LoginAttemptId, TwoFACode), TwoFACodeStoreError>,
    login_attempt_id: &LoginAttemptId,
    code: &TwoFACode,
) -> (r: Result<(), AuthAPIError>)
    ensures
        r == (match stored {
            Ok(challenge) => if challenge.0@ == login_attempt_id@ && challenge.1@ == code@ {
                Ok::<(), AuthAPIError>(())
            } else {
                Err::<(), AuthAPIError>(AuthAPIError::IncorrectCredentials)
            },
            Err(TwoFACodeStoreError::LoginAttemptIdNotFound) => Err::<(), AuthAPIError>(
                AuthAPIError::IncorrectCredentials,
            ),
            Err(TwoFACodeStoreError::UnexpectedError) => Err::<(), AuthAPIError>(
                AuthAPIError::UnexpectedError,
            ),
        }),
{
    match stored {
        Ok((stored_login_attempt_id, stored_code)) => {
            if stored_login_attempt_id != *login_attempt_id || stored_code != *code {
                Err(AuthAPIError::IncorrectCredentials)
            } else {
                Ok(())
            }
        },
        Err(TwoFACodeStoreError::LoginAttemptIdNotFound) => Err(AuthAPIError::IncorrectCredentials),
        Err(TwoFACodeStoreError::UnexpectedError) => Err(AuthAPIError::UnexpectedError),
    }
}

/// Opens the session of `email` once the store has answered `removed` to
/// dropping the challenge that was verified: a challenge that could not be
/// dropped is an unexpected error, and so is a token whose expiry instant
/// does not fit in sixty-four bits; else the session token of `email`,
/// issued at the instant `now`, is handed back.
pub fn finish_second_factor(
    removed: Result<(), TwoFACodeStoreError>,
    email: &Email,
    token_codec: &TokenCodec,
    now: u64,
) -> (r: Result<String, AuthAPIError>)
    ensures
        match r {
            Ok(token) => {
                &&& removed is Ok
                &&& now + token_codec.ttl() <= u64::MAX
                &&& token@ == issued_token(
                    token_codec.secret(),
                    email@,
                    (now + token_codec.ttl()) as nat,
                )
                &&& token_codec.ttl() > 0 ==> token_verdict(token_codec.secret(), token@, now)
                    == Ok::<Seq<char>, TokenError>(email@)
            },
            Err(e) => e == AuthAPIError::UnexpectedError && (removed is Err || now
                + token_codec.ttl() > u64::MAX),
        },
{
    if removed.is_err() {
        return Err(AuthAPIError::UnexpectedError);
    }
    match token_codec.issue(email, now) {
        Ok(token) => Ok(token),
        Err(_) => Err(AuthAPIError::UnexpectedError),
    }
}

/// What verifying a second factor may do to the challenges `before` where
/// the store has a model: success consumed the live challenge, which was
/// the pair presented; `IncorrectCredentials` met another pair or none and
/// changed nothing; an unexpected error left the challenge there or
/// consumed it.
pub open spec fn verify_2fa_post(
    before: Map<Seq<char>, (Seq<char>, Seq<char>)>,
    email: Seq<char>,
    login_attempt_id: Seq<char>,
    code: Seq<char>,
    r: Result<String, AuthAPIError>,
    after: Map<Seq<char>, (Seq<char>, Seq<char>)>,
) -> bool {
    match r {
        Ok(_) => second_factor_outcome(before, email, login_attempt_id, code) == (true, after),
        Err(AuthAPIError::IncorrectCredentials) => second_factor_outcome(
            before,
            email,
            login_attempt_id,
            code,
        ) == (false, after),
        Err(AuthAPIError::UnexpectedError) => after == before || after == second_factor_outcome(
            before,
            email,
            login_attempt_id,
            code,
        ).1,
        Err(_) => true,
    }
}

/// Verifies the second factor of `request` at the instant `now` and opens
/// the session.
///
/// Malformed texts are `Invalid2FACodeRequest`, and nothing else is; the
/// store is not touched. A pair that is not the live challenge of the email
/// is `IncorrectCredentials` and changes nothing. The live challenge is
/// consumed, and the session token of the email is handed back. Where the
/// answer is an unexpected error, the challenge is either still there or
/// consumed, and nothing else has changed.
pub fn verify_2fa<T: TwoFACodeStore>(
    two_fa_code_store: &mut T,
    token_codec: &TokenCodec,
    now: u64,
    request: Verify2FARequest,
) -> (r: Result<String, AuthAPIError>)
    ensures
        second_factor_well_formed(
            request.email@,
            request.login_attempt_id@,
            request.two_fa_code@,
        ) <==> !(r matches Err(AuthAPIError::Invalid2FACodeRequest)),
        match r {
            Ok(token) => {
                &&& now + token_codec.ttl() <= u64::MAX
                &&& token@ == issued_token(
                    token_codec.secret(),
                    request.email@,
                    (now + token_codec.ttl()) as nat,
                )
                &&& token_codec.ttl() > 0 ==> token_verdict(token_codec.secret(), token@, now)
                    == Ok::<Seq<char>, TokenError>(request.email@)
            },
            Err(AuthAPIError::Invalid2FACodeRequest) => final(two_fa_code_store).codes() == old(
                two_fa_code_store
            ).codes(),
            Err(AuthAPIError::IncorrectCredentials) => true,
            Err(AuthAPIError::UnexpectedError) => true,
            Err(_) => false,
        },
        T::modelled() ==> verify_2fa_post(
            old(two_fa_code_store).codes(),
            request.email@,
            request.login_attempt_id@,
            request.two_fa_code@,
            r,
            final(two_fa_code_store).codes(),
        ),
{
    let (email, login_attempt_id, code) = match parse_second_factor(request) {
        Ok(parsed) => parsed,
        Err(e) => {
            return Err(e);
        },
    };
    let stored = two_fa_code_store.get_code(&email);
    match check_challenge(stored, &login_attempt_id, &code) {
        Ok(()) => {},
        Err(e) => {
            return Err(e);
        },
    }
    let removed = two_fa_code_store.remove_code(&email);
    finish_second_factor(removed, &email, token_codec, now)
}

} // verus!
