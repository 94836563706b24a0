//! Verifying a session token on behalf of another service.

use vstd::prelude::*;
use crate::domain::data_stores::BannedTokenStore;
use crate::domain::error::AuthAPIError;
use crate::routes::logout::token_error;
use crate::utils::auth::{authentication_outcome, token_verdict, validate_token, TokenCodec};

verus! {

/// A request to verify a token.
#[derive(Debug)]
pub struct VerifyTokenRequest {
    pub token: String,
}

/// Says whether the token of `request` authenticates its bearer at the
/// instant `now`: the codec must accept it and the revocation store must
/// not hold it. Every refusal is `InvalidToken`.
pub fn verify_token<B: BannedTokenStore>(
    banned_token_store: &B,
    token_codec: &TokenCodec,
    now: u64,
    request: VerifyTokenRequest,
) -> (r: Result<(), AuthAPIError>)
    ensures
        token_verdict(token_codec.secret(), request.token@, now) is Err ==> r matches Err(
            AuthAPIError::InvalidToken,
        ),
        r is Ok ==> token_verdict(token_codec.secret(), request.token@, now) is Ok,
        r is Err ==> r matches Err(AuthAPIError::InvalidToken) || r matches Err(
            AuthAPIError::UnexpectedError,
        ),
        B::modelled() ==> match r {
            Ok(()) => authentication_outcome(
                token_codec.secret(),
                banned_token_store.banned(),
                request.token@,
                now,
            ) is Ok,
            Err(AuthAPIError::InvalidToken) => authentication_outcome(
                token_codec.secret(),
                banned_token_store.banned(),
                request.token@,
                now,
            ) is Err,
            Err(_) => true,
        },
{
    match validate_token(request.token.as_str(), banned_token_store, token_codec, now) {
        Ok(_) => Ok(()),
        Err(e) => Err(token_error(e)),
    }
}

} // verus!
