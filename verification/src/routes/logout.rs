//! Logging out: the session token is banned.

use vstd::prelude::*;
use crate::domain::data_stores::BannedTokenStore;
use crate::domain::error::AuthAPIError;
use crate::utils::auth::{
    authentication_outcome, token_verdict, validate_token, TokenCodec, ValidateTokenError,
};

verus! {

/// What a token that does not authenticate means to its bearer: an expired,
/// a forged and a banned token are told in the same words, and a store that
/// failed is an unexpected error.
pub open spec fn token_error_of(e: ValidateTokenError) -> AuthAPIError {
    match e {
        ValidateTokenError::UnexpectedError => AuthAPIError::UnexpectedError,
        _ => AuthAPIError::InvalidToken,
    }
}

/// What a token that does not authenticate means to its bearer.
pub fn token_error(e: ValidateTokenError) -> (error: AuthAPIError)
    ensures
        error == token_error_of(e),
{
    match e {
        ValidateTokenError::UnexpectedError => AuthAPIError::UnexpectedError,
        _ => AuthAPIError::InvalidToken,
    }
}

/// The text of a token that may be missing.
pub open spec fn token_text_of(token: Option<String>) -> Option<Seq<char>> {
    match token {
        Some(token) => Some(token@),
        None => None,
    }
}

/// What logging out may do to the banned tokens `before` where the store
/// has a model: success bans a token that authenticated, and every refusal
/// leaves the banned tokens as they were.
pub open spec fn logout_post(
    secret: Seq<char>,
    before: Set<Seq<char>>,
    token: Option<Seq<char>>,
    now: u64,
    r: Result<(), AuthAPIError>,
    after: Set<Seq<char>>,
) -> bool {
    match r {
        Ok(()) => {
            &&& token matches Some(text) && authentication_outcome(secret, before, text, now)
                is Ok
            &&& after == before.insert(token->Some_0)
        },
        Err(AuthAPIError::MissingToken) => token is None && after == before,
        Err(AuthAPIError::InvalidToken) => {
            &&& token matches Some(text) && authentication_outcome(secret, before, text, now)
                is Err
            &&& after == before
        },
        Err(AuthAPIError::UnexpectedError) => {
            &&& token matches Some(text) && token_verdict(secret, text, now) is Ok
            &&& after == before
        },
        Err(_) => false,
    }
}

/// Logs out the bearer of `token` at the instant `now`.
///
/// No token is `MissingToken`. A token that does not authenticate, because
/// it is forged, expired or banned already, is `InvalidToken`. A token that
/// authenticates is banned. Whatever is answered but success, the banned
/// tokens are what they were.
pub fn logout<B: BannedTokenStore>(
    banned_token_store: &mut B,
    token_codec: &TokenCodec,
    now: u64,
    token: Option<String>,
) -> (r: Result<(), AuthAPIError>)
    ensures
        token is None <==> r matches Err(AuthAPIError::MissingToken),
        (token matches Some(text) && token_verdict(token_codec.secret(), text@, now) is Err) ==> (r
            matches Err(AuthAPIError::InvalidToken)),
        r is Ok ==> (token matches Some(text) && token_verdict(token_codec.secret(), text@, now)
            is Ok),
        B::modelled() ==> logout_post(
            token_codec.secret(),
            old(banned_token_store).banned(),
            token_text_of(token),
            now,
            r,
            final(banned_token_store).banned(),
        ),
{
    let token = match token {
        Some(token) => token,
        None => {
            return Err(AuthAPIError::MissingToken);
        },
    };
    match validate_token(token.as_str(), &*banned_token_store, token_codec, now) {
        Ok(_) => {},
        Err(e) => {
            return Err(token_error(e));
        },
    }
    match banned_token_store.ban_token(token.as_str()) {
        Ok(()) => Ok(()),
        Err(_) => Err(AuthAPIError::UnexpectedError),
    }
}

} // verus!
