//! What a revocation store on a cache with expiring entries computes:
//! under which key a banned token lies, for how long, and what the cache's
//! replies mean.

use vstd::prelude::*;
use vstd::string::StringExecFns;
use crate::domain::data_stores::BannedTokenStoreError;
use crate::utils::auth::TokenCodec;

verus! {

/// What every key of a banned token begins with.
pub const BANNED_TOKEN_KEY_PREFIX: &'static str = "banned_token:";

/// The key under which `token` lies once it is banned.
pub open spec fn banned_token_key(token: Seq<char>) -> Seq<char> {
    BANNED_TOKEN_KEY_PREFIX@ + token
}

/// The key under which `token` lies once it is banned.
pub fn get_key(token: &str) -> (key: String)
    ensures
        key@ == banned_token_key(token@),
{
    String::from_str(BANNED_TOKEN_KEY_PREFIX).concat(token)
}

/// An entry to write to the cache: a key that is set and the seconds after
/// which the cache drops it.
#[derive(Debug)]
pub struct BanEntry {
    pub key: String,
    pub ttl_seconds: u64,
}

/// The entry that bans `token` where session tokens come from
/// `token_codec`: it lives as long as a token of that codec stays valid, so
/// that no banned token outlives its ban.
pub fn ban_entry(token: &str, token_codec: &TokenCodec) -> (entry: BanEntry)
    ensures
        entry.key@ == banned_token_key(token@),
        entry.ttl_seconds == token_codec.ttl(),
{
    BanEntry { key: get_key(token), ttl_seconds: token_codec.ttl_seconds() }
}

/// What the outcome of writing a ban means: a write that failed is an
/// unexpected error.
pub fn ban_result(written: bool) -> (r: Result<(), BannedTokenStoreError>)
    ensures
        r == (if written {
            Ok::<(), BannedTokenStoreError>(())
        } else {
            Err::<(), BannedTokenStoreError>(BannedTokenStoreError::UnexpectedError)
        }),
{
    if written {
        Ok(())
    } else {
        Err(BannedTokenStoreError::UnexpectedError)
    }
}

/// What the reply to asking for a key means: the token is banned exactly
/// when its key is there, and no reply is an unexpected error.
pub fn is_banned_result(reply: Option<bool>) -> (r: Result<bool, BannedTokenStoreError>)
    ensures
        r == (match reply {
            Some(exists) => Ok::<bool, BannedTokenStoreError>(exists),
            None => Err::<bool, BannedTokenStoreError>(BannedTokenStoreError::UnexpectedError),
        }),
{
    match reply {
        Some(exists) => Ok(exists),
        None => Err(BannedTokenStoreError::UnexpectedError),
    }
}

/// Distinct tokens lie under distinct keys.
pub proof fn lemma_keys_distinct(a: Seq<char>, b: Seq<char>)
    requires
        a != b,
    ensures
        banned_token_key(a) != banned_token_key(b),
{
    let prefix = BANNED_TOKEN_KEY_PREFIX@;
    if banned_token_key(a) == banned_token_key(b) {
        assert(banned_token_key(a).skip(prefix.len() as int) =~= a);
        assert(banned_token_key(b).skip(prefix.len() as int) =~= b);
    }
}

/// The entry of a banned token outlives the token: where tokens are valid
/// for `ttl` seconds and an entry lives as long, a token that was issued at
/// `issued_at` and banned at `banned_at` has, at every instant `now` at
/// which it is not yet expired, an entry that the cache still holds.
pub proof fn lemma_ban_outlives_token(ttl: u64, issued_at: u64, banned_at: u64, now: u64)
    requires
        issued_at <= banned_at,
        now < issued_at + ttl,
    ensures
        now < banned_at + ttl,
{
}

} // verus!
