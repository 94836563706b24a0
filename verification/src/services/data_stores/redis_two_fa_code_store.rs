//! What a two-factor challenge store on a cache with expiring entries
//! computes: under which key a challenge lies, for how long, how it is
//! written down, and what the cache's replies mean.

use vstd::prelude::*;
use vstd::string::StringExecFns;
use crate::domain::data_stores::{
    is_login_attempt_id, is_two_fa_code, LoginAttemptId, TwoFACode, TwoFACodeStoreError,
};
use crate::domain::email::Email;

verus! {

/// How long a challenge lives, in seconds.
pub const TEN_MINUTES_IN_SECONDS: u64 = 600;

/// What every key of a challenge begins with.
pub const TWO_FA_CODE_PREFIX: &'static str = "two_fa_code:";

/// The JSON text that `serde_json::to_string` writes for the pair of
/// strings `(first, second)`, or `None` where it fails.
pub uninterp spec fn json_pair_text(first: Seq<char>, second: Seq<char>) -> Option<Seq<char>>;

/// The pair of strings that `serde_json::from_str` reads from `text`, or
/// `None` where `text` is no JSON array of exactly two strings.
pub uninterp spec fn json_pair_parse(text: Seq<char>) -> Option<(Seq<char>, Seq<char>)>;

/// Calls `serde_json::to_string` on a pair of strings, which it writes as a
/// JSON array of two strings. The text depends on the pair alone and is
/// what [`json_pair_text`] names.
#[verifier::external_body]
fn json_encode_pair(first: &str, second: &str) -> (r: Option<String>)
    ensures
        match r {
            Some(text) => json_pair_text(first@, second@) == Some(text@),
            None => json_pair_text(first@, second@) is None,
        },
{
    serde_json::to_string(&(first, second)).ok()
}

/// Calls `serde_json::from_str` for a pair of strings. The pair depends on
/// the text alone and is what [`json_pair_parse`] names.
#[verifier::external_body]
fn json_decode_pair(text: &str) -> (r: Option<(String, String)>)
    ensures
        match r {
            Some(pair) => json_pair_parse(text@) == Some((pair.0@, pair.1@)),
            None => json_pair_parse(text@) is None,
        },
{
    serde_json::from_str::<(String, String)>(text).ok()
}

/// The key under which the challenge for `email` lies.
pub open spec fn challenge_key(email: Seq<char>) -> Seq<char> {
    TWO_FA_CODE_PREFIX@ + email
}

/// The key under which the challenge for `email` lies.
pub fn get_key(email: &Email) -> (key: String)
    ensures
        key@ == challenge_key(email@),
{
    String::from_str(TWO_FA_CODE_PREFIX).concat(email.as_ref())
}

/// An entry to write to the cache: key, value and the seconds after which
/// the cache drops it.
#[derive(Debug)]
pub struct ChallengeEntry {
    pub key: String,
    pub value: String,
    pub ttl_seconds: u64,
}

/// The entry that files the challenge `(login_attempt_id, code)` for
/// `email`: the pair as JSON, for ten minutes.
pub fn challenge_entry(email: &Email, login_attempt_id: &LoginAttemptId, code: &TwoFACode) -> (r:
    Result<ChallengeEntry, TwoFACodeStoreError>)
    ensures
        match r {
            Ok(entry) => {
                &&& entry.key@ == challenge_key(email@)
                &&& json_pair_text(login_attempt_id@, code@) == Some(entry.value@)
                &&& entry.ttl_seconds == TEN_MINUTES_IN_SECONDS
            },
            Err(e) => e == TwoFACodeStoreError::UnexpectedError && json_pair_text(
                login_attempt_id@,
                code@,
            ) is None,
        },
{
    match json_encode_pair(login_attempt_id.as_ref(), code.as_ref()) {
        Some(value) => Ok(
            ChallengeEntry { key: get_key(email), value, ttl_seconds: TEN_MINUTES_IN_SECONDS },
        ),
        None => Err(TwoFACodeStoreError::UnexpectedError),
    }
}

/// What a stored pair of strings means: the challenge it writes, where the
/// first is an attempt identifier and the second a code.
pub open spec fn challenge_of(pair: Option<(Seq<char>, Seq<char>)>) -> Result<
    (Seq<char>, Seq<char>),
    TwoFACodeStoreError,
> {
    match pair {
        Some(pair) => if is_login_attempt_id(pair.0) && is_two_fa_code(pair.1) {
            Ok(pair)
        } else {
            Err(TwoFACodeStoreError::UnexpectedError)
        },
        None => Err(TwoFACodeStoreError::UnexpectedError),
    }
}

/// What the value that the cache holds under a challenge's key means:
/// `LoginAttemptIdNotFound` where there is none, the challenge where the
/// value writes one, and an unexpected error where it does not.
pub open spec fn stored_challenge(reply: Option<Seq<char>>) -> Result<
    (Seq<char>, Seq<char>),
    TwoFACodeStoreError,
> {
    match reply {
        None => Err(TwoFACodeStoreError::LoginAttemptIdNotFound),
        Some(value) => challenge_of(json_pair_parse(value)),
    }
}

/// Reads the challenge out of a pair of strings.
pub fn challenge_from_pair(pair: Option<(String, String)>) -> (r: Result<
    (LoginAttemptId, TwoFACode),
    TwoFACodeStoreError,
>)
    ensures
        match r {
            Ok(challenge) => challenge_of(pair_text(pair)) == Ok::<
                (Seq<char>, Seq<char>),
                TwoFACodeStoreError,
            >((challenge.0@, challenge.1@)),
            Err(e) => challenge_of(pair_text(pair)) == Err::<
                (Seq<char>, Seq<char>),
                TwoFACodeStoreError,
            >(e),
        },
{
    match pair {
        Some((id, code)) => match (LoginAttemptId::parse(id), TwoFACode::parse(code.as_str())) {
            (Ok(login_attempt_id), Ok(code)) => Ok((login_attempt_id, code)),
            _ => Err(TwoFACodeStoreError::UnexpectedError),
        },
        None => Err(TwoFACodeStoreError::UnexpectedError),
    }
}

/// The texts of a pair of strings.
pub open spec fn pair_text(pair: Option<(String, String)>) -> Option<(Seq<char>, Seq<char>)> {
    match pair {
        Some(pair) => Some((pair.0@, pair.1@)),
        None => None,
    }
}

/// Reads the challenge out of the cache's reply to asking for a
/// challenge's key.
pub fn challenge_from_reply(reply: Option<String>) -> (r: Result<
    (LoginAttemptId, TwoFACode),
    TwoFACodeStoreError,
>)
    ensures
        match r {
            Ok(challenge) => stored_challenge(reply_text(reply)) == Ok::<
                (Seq<char>, Seq<char>),
                TwoFACodeStoreError,
            >((challenge.0@, challenge.1@)),
            Err(e) => stored_challenge(reply_text(reply)) == Err::<
                (Seq<char>, Seq<char>),
                TwoFACodeStoreError,
            >(e),
        },
{
    match reply {
        None => Err(TwoFACodeStoreError::LoginAttemptIdNotFound),
        Some(value) => challenge_from_pair(json_decode_pair(value.as_str())),
    }
}

/// The text of a reply.
pub open spec fn reply_text(reply: Option<String>) -> Option<Seq<char>> {
    match reply {
        Some(value) => Some(value@),
        None => None,
    }
}

} // verus!
