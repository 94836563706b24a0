//! Session tokens: signed, self-contained credentials that bind an email to
//! an expiry instant.
//!
//! A token is the text `<expiry>.<signature>.<subject>`: the expiry in
//! seconds since the epoch, in decimal; the HMAC-SHA-256 tag of
//! `<expiry>.<subject>` under the signing secret, in lower-case hexadecimal;
//! and the email. Neither of the first two parts can hold a full stop, so a
//! token splits in one way only.

use vstd::prelude::*;
use vstd::string::{StrSliceExecFns, StringExecFns};
use vstd::utf8::encode_utf8;
use hmac::Mac;
use crate::domain::data_stores::{BannedTokenStore, BannedTokenStoreError};
use crate::domain::email::{is_email_address, Email};
use crate::utils::text::{
    chars_of, decimal_string, decimal_text, decimal_value, hex_string, hex_text,
    lemma_decimal_text_round_trip, lemma_numbers_hold_no_dot, parse_decimal,
};

verus! {

/// How long a session token stays valid, in seconds.
pub const TOKEN_TTL_SECONDS: u64 = 600;

/// The HMAC-SHA-256 tag of `message` under `key`.
pub uninterp spec fn hmac_sha256(key: Seq<u8>, message: Seq<u8>) -> Seq<u8>;

/// Computes a tag with `Hmac::<Sha256>` of the `hmac` and `sha2` crates:
/// `Mac::new_from_slice`, `Mac::update` once, `Mac::finalize`. HMAC takes a
/// key of any length, so a tag always comes back. It depends on key and
/// message alone and is what [`hmac_sha256`] names.
#[verifier::external_body]
fn hmac_sha256_tag(key: &[u8], message: &[u8]) -> (tag: Option<Vec<u8>>)
    ensures
        tag is Some,
        tag->Some_0@ == hmac_sha256(key@, message@),
{
    let mut mac = hmac::Hmac::<sha2::Sha256>::new_from_slice(key).ok()?;
    mac.update(message);
    Some(mac.finalize().into_bytes().to_vec())
}

/// Why a token was not issued.
#[derive(Debug, Clone, Copy, PartialEq, Eq, Structural)]
pub enum GenerateTokenError {
    /// The expiry instant does not fit in sixty-four bits.
    ExpiryOutOfRange,
}

/// Why a token was not accepted.
#[derive(Debug, Clone, Copy, PartialEq, Eq, Structural)]
pub enum TokenError {
    /// The signature is right and the expiry instant has passed.
    Expired,
    /// The text is no token, or its signature is not the one that the secret
    /// gives.
    BadSignature,
}

/// The three parts of a token's text.
pub ghost struct TokenParts {
    pub expiry: Seq<char>,
    pub signature: Seq<char>,
    pub subject: Seq<char>,
}

/// The text that a token's signature covers.
pub open spec fn signed_message(expiry: Seq<char>, subject: Seq<char>) -> Seq<char> {
    expiry + seq!['.'] + subject
}

/// The text of the token with these parts.
pub open spec fn token_text(parts: TokenParts) -> Seq<char> {
    parts.expiry + seq!['.'] + parts.signature + seq!['.'] + parts.subject
}

/// The signature that `secret` gives to `message`.
pub open spec fn signature_of(secret: Seq<char>, message: Seq<char>) -> Seq<char> {
    hex_text(hmac_sha256(encode_utf8(secret), encode_utf8(message)))
}

/// The token that `secret` issues to `subject` with the expiry instant
/// `expiry`.
pub open spec fn issued_token(secret: Seq<char>, subject: Seq<char>, expiry: nat) -> Seq<char> {
    token_text(
        TokenParts {
            expiry: decimal_text(expiry),
            signature: signature_of(secret, signed_message(decimal_text(expiry), subject)),
            subject,
        },
    )
}

/// The parts of `token`, split at its first two full stops.
pub open spec fn token_parts(token: Seq<char>) -> Option<TokenParts> {
    match token.index_of_first('.') {
        None => None,
        Some(i) => {
            let rest = token.skip(i + 1);
            match rest.index_of_first('.') {
                None => None,
                Some(j) => Some(
                    TokenParts {
                        expiry: token.take(i),
                        signature: rest.take(j),
                        subject: rest.skip(j + 1),
                    },
                ),
            }
        },
    }
}

/// Whether `parts` carry the signature that `secret` gives them, an expiry
/// that is a number of sixty-four bits, and a subject that is an email.
pub open spec fn parts_genuine(secret: Seq<char>, parts: TokenParts) -> bool {
    &&& signature_of(secret, signed_message(parts.expiry, parts.subject)) == parts.signature
    &&& decimal_value(parts.expiry) matches Some(expiry) && expiry <= u64::MAX
    &&& is_email_address(parts.subject)
}

/// What verifying `token` at the instant `now` gives: the subject of a
/// genuine token before its expiry, `Expired` for a genuine token from its
/// expiry on, `BadSignature` for everything else.
pub open spec fn token_verdict(secret: Seq<char>, token: Seq<char>, now: u64) -> Result<
    Seq<char>,
    TokenError,
> {
    match token_parts(token) {
        None => Err(TokenError::BadSignature),
        Some(parts) => if !parts_genuine(secret, parts) {
            Err(TokenError::BadSignature)
        } else if now < decimal_value(parts.expiry).unwrap() {
            Ok(parts.subject)
        } else {
            Err(TokenError::Expired)
        },
    }
}

/// The first full stop of `a + "." + b` is right behind `a` where `a` holds
/// none.
pub proof fn lemma_first_dot(a: Seq<char>, b: Seq<char>)
    requires
        !a.contains('.'),
    ensures
        (a + seq!['.'] + b).index_of_first('.') == Some(a.len() as int),
        (a + seq!['.'] + b).take(a.len() as int) == a,
        (a + seq!['.'] + b).skip(a.len() as int + 1) == b,
{
    let s = a + seq!['.'] + b;
    s.index_of_first_ensures('.');
    assert(s[a.len() as int] == '.');
    let i = s.index_of_first('.').unwrap();
    if i < a.len() {
        assert(a[i] == '.');
    }
    assert(s.take(a.len() as int) =~= a);
    assert(s.skip(a.len() as int + 1) =~= b);
}

/// A token splits into the parts it was written from, where neither expiry
/// nor signature holds a full stop.
pub proof fn lemma_token_parts(parts: TokenParts)
    requires
        !parts.expiry.contains('.'),
        !parts.signature.contains('.'),
    ensures
        token_parts(token_text(parts)) == Some(parts),
{
    let rest = parts.signature + seq!['.'] + parts.subject;
    assert(token_text(parts) =~= parts.expiry + seq!['.'] + rest);
    lemma_first_dot(parts.expiry, rest);
    lemma_first_dot(parts.signature, parts.subject);
}

/// An issued token verifies to its subject until its expiry instant and is
/// expired from then on.
pub proof fn lemma_issued_token_verifies(
    secret: Seq<char>,
    subject: Seq<char>,
    expiry: u64,
    now: u64,
)
    requires
        is_email_address(subject),
    ensures
        token_verdict(secret, issued_token(secret, subject, expiry as nat), now) == (if now
            < expiry {
            Ok::<Seq<char>, TokenError>(subject)
        } else {
            Err::<Seq<char>, TokenError>(TokenError::Expired)
        }),
{
    let expiry_text = decimal_text(expiry as nat);
    let signature = signature_of(secret, signed_message(expiry_text, subject));
    let parts = TokenParts { expiry: expiry_text, signature, subject };
    let tag = hmac_sha256(encode_utf8(secret), encode_utf8(signed_message(expiry_text, subject)));
    lemma_numbers_hold_no_dot(expiry as nat, tag);
    lemma_decimal_text_round_trip(expiry as nat);
    lemma_token_parts(parts);
}

/// Whether two texts are the same. Every position is looked at, whatever
/// the ones before it held.
pub fn same_text(a: &Vec<char>, b: &Vec<char>) -> (same: bool)
    ensures
        same == (a@ == b@),
{
    if a.len() != b.len() {
        return false;
    }
    let mut same = true;
    let mut i: usize = 0;
    assert(a@.take(0) =~= b@.take(0));
    while i < a.len()
        invariant
            i <= a.len(),
            a.len() == b.len(),
            same == (a@.take(i as int) == b@.take(i as int)),
        decreases a.len() - i,
    {
        let here = a[i] == b[i];
        proof {
            let na = a@.take(i + 1);
            let nb = b@.take(i + 1);
            assert(na.drop_last() =~= a@.take(i as int));
            assert(nb.drop_last() =~= b@.take(i as int));
            assert(na.last() == a@[i as int]);
            assert(nb.last() == b@[i as int]);
            if same && here {
                assert(na =~= nb);
            }
        }
        if !here {
            same = false;
        }
        i = i + 1;
    }
    proof {
        assert(a@.take(i as int) =~= a@);
        assert(b@.take(i as int) =~= b@);
    }
    same
}

/// The place of the first full stop of `chars` at or behind `from`, or the
/// length of `chars` where there is none.
fn find_dot(chars: &Vec<char>, from: usize) -> (at: usize)
    requires
        from <= chars.len(),
    ensures
        from <= at <= chars.len(),
        chars@.skip(from as int).index_of_first('.') == (if at < chars.len() {
            Some(at - from)
        } else {
            None
        }),
{
    let ghost rest = chars@.skip(from as int);
    let mut at: usize = from;
    while at < chars.len() && chars[at] != '.'
        invariant
            from <= at <= chars.len(),
            rest == chars@.skip(from as int),
            forall|k: int| 0 <= k < at - from ==> rest[k] != '.',
        decreases chars.len() - at,
    {
        at = at + 1;
    }
    proof {
        rest.index_of_first_ensures('.');
        if at < chars.len() {
            assert(rest[at - from] == '.');
            let k = rest.index_of_first('.').unwrap();
            if k > at - from {
                assert(rest[at - from] != '.');
            }
        } else {
            if rest.contains('.') {
                let k = rest.index_of_first('.').unwrap();
                assert(rest[k] == '.');
            }
        }
    }
    at
}

/// Issues and verifies session tokens under one secret and one validity
/// duration.
pub struct TokenCodec {
    secret: String,
    ttl_seconds: u64,
}

impl TokenCodec {
    /// The signing secret.
    pub closed spec fn secret(&self) -> Seq<char> {
        self.secret@
    }

    /// How long an issued token stays valid, in seconds.
    pub closed spec fn ttl(&self) -> u64 {
        self.ttl_seconds
    }

    /// A codec that signs with `secret` and issues tokens that are valid
    /// for `ttl_seconds`.
    pub fn new(secret: String, ttl_seconds: u64) -> (codec: Self)
        ensures
            codec.secret() == secret@,
            codec.ttl() == ttl_seconds,
    {
        TokenCodec { secret, ttl_seconds }
    }

    /// How long an issued token stays valid, in seconds.
    pub fn ttl_seconds(&self) -> (ttl: u64)
        ensures
            ttl == self.ttl(),
    {
        self.ttl_seconds
    }

    /// The signature of `message`, in hexadecimal.
    fn sign(&self, message: &str) -> (signature: String)
        ensures
            signature@ == signature_of(self.secret(), message@),
    {
        match hmac_sha256_tag(self.secret.as_str().as_bytes(), message.as_bytes()) {
            Some(tag) => hex_string(&tag),
            None => String::new(),
        }
    }

    /// Issues the token that binds `email` to the expiry instant
    /// `now + ttl`. The token is issued unless that instant does not fit in
    /// sixty-four bits, and where the validity is more than nothing, it
    /// verifies to `email` at the instant it was issued.
    pub fn issue(&self, email: &Email, now: u64) -> (r: Result<String, GenerateTokenError>)
        ensures
            match r {
                Ok(token) => {
                    &&& now + self.ttl() <= u64::MAX
                    &&& token@ == issued_token(self.secret(), email@, (now + self.ttl()) as nat)
                    &&& self.ttl() > 0 ==> token_verdict(self.secret(), token@, now) == Ok::<
                        Seq<char>,
                        TokenError,
                    >(email@)
                },
                Err(GenerateTokenError::ExpiryOutOfRange) => now + self.ttl() > u64::MAX,
            },
    {
        let expiry = match now.checked_add(self.ttl_seconds) {
            Some(expiry) => expiry,
            None => {
                return Err(GenerateTokenError::ExpiryOutOfRange);
            },
        };
        let expiry_text = decimal_string(expiry);
        let mut message = expiry_text.clone();
        message.append(".");
        message.append(email.as_ref());
        proof {
            reveal_strlit(".");
            assert("."@ =~= seq!['.']);
            assert(message@ =~= signed_message(decimal_text(expiry as nat), email@));
        }
        let signature = self.sign(message.as_str());
        let mut token = expiry_text;
        token.append(".");
        token.append(signature.as_str());
        token.append(".");
        token.append(email.as_ref());
        proof {
            assert(token@ =~= token_text(
                TokenParts {
                    expiry: decimal_text(expiry as nat),
                    signature: signature@,
                    subject: email@,
                },
            ));
            lemma_issued_token_verifies(self.secret(), email@, expiry, now);
        }
        Ok(token)
    }

    /// Verifies `token` at the instant `now`, whatever any revocation store
    /// says of it.
    pub fn verify(&self, token: &str, now: u64) -> (r: Result<Email, TokenError>)
        ensures
            match r {
                Ok(email) => token_verdict(self.secret(), token@, now) == Ok::<
                    Seq<char>,
                    TokenError,
                >(email@),
                Err(e) => token_verdict(self.secret(), token@, now) == Err::<Seq<char>, TokenError>(
                    e,
                ),
            },
    {
        let chars = chars_of(token);
        let first = find_dot(&chars, 0);
        proof {
            assert(chars@.skip(0) =~= chars@);
        }
        if first >= chars.len() {
            return Err(TokenError::BadSignature);
        }
        let second = find_dot(&chars, first + 1);
        if second >= chars.len() {
            return Err(TokenError::BadSignature);
        }
        let expiry_text = token.substring_char(0, first);
        let signature_text = token.substring_char(first + 1, second);
        let subject_text = token.substring_char(second + 1, chars.len());
        let ghost parts = token_parts(token@).unwrap();
        proof {
            let rest = token@.skip(first + 1);
            assert(expiry_text@ =~= parts.expiry);
            assert(signature_text@ =~= parts.signature);
            assert(subject_text@ =~= parts.subject);
            assert(chars@.subrange(0, first as int) =~= parts.expiry);
        }
        let mut message = String::from_str(expiry_text);
        message.append(".");
        message.append(subject_text);
        proof {
            reveal_strlit(".");
            assert("."@ =~= seq!['.']);
            assert(message@ =~= signed_message(parts.expiry, parts.subject));
        }
        let expected = self.sign(message.as_str());
        let signed = same_text(&chars_of(expected.as_str()), &chars_of(signature_text));
        let expiry = parse_decimal(&chars, 0, first);
        let subject = Email::parse(String::from_str(subject_text));
        match (signed, expiry, subject) {
            (true, Some(expiry), Ok(email)) => if now < expiry {
                Ok(email)
            } else {
                Err(TokenError::Expired)
            },
            _ => Err(TokenError::BadSignature),
        }
    }
}

/// Why a token does not authenticate its bearer.
#[derive(Debug, Clone, Copy, PartialEq, Eq, Structural)]
pub enum ValidateTokenError {
    /// The token is genuine and its expiry instant has passed.
    Expired,
    /// The text is no token of this codec.
    BadSignature,
    /// The token is genuine, not expired, and banned.
    Banned,
    /// The revocation store failed.
    UnexpectedError,
}

/// What authenticating `token` at the instant `now` gives against the
/// banned tokens `banned`, where the revocation store answers: the codec's
/// verdict first, then the ban.
pub open spec fn authentication_outcome(
    secret: Seq<char>,
    banned: Set<Seq<char>>,
    token: Seq<char>,
    now: u64,
) -> Result<Seq<char>, ValidateTokenError> {
    match token_verdict(secret, token, now) {
        Err(TokenError::Expired) => Err(ValidateTokenError::Expired),
        Err(TokenError::BadSignature) => Err(ValidateTokenError::BadSignature),
        Ok(subject) => if banned.contains(token) {
            Err(ValidateTokenError::Banned)
        } else {
            Ok(subject)
        },
    }
}

/// What authentication answers once the codec has given `verdict` and the
/// revocation store, asked only about a token that the codec accepts, has
/// given `banned`.
pub fn authentication_result(
    verdict: Result<Email, TokenError>,
    banned: Option<Result<bool, BannedTokenStoreError>>,
) -> (r: Result<Email, ValidateTokenError>)
    ensures
        match verdict {
            Err(TokenError::Expired) => r == Err::<Email, ValidateTokenError>(
                ValidateTokenError::Expired,
            ),
            Err(TokenError::BadSignature) => r == Err::<Email, ValidateTokenError>(
                ValidateTokenError::BadSignature,
            ),
            Ok(email) => match banned {
                Some(Ok(false)) => r == Ok::<Email, ValidateTokenError>(email),
                Some(Ok(true)) => r == Err::<Email, ValidateTokenError>(ValidateTokenError::Banned),
                _ => r == Err::<Email, ValidateTokenError>(ValidateTokenError::UnexpectedError),
            },
        },
{
    match verdict {
        Err(TokenError::Expired) => Err(ValidateTokenError::Expired),
        Err(TokenError::BadSignature) => Err(ValidateTokenError::BadSignature),
        Ok(email) => match banned {
            Some(Ok(false)) => Ok(email),
            Some(Ok(true)) => Err(ValidateTokenError::Banned),
            _ => Err(ValidateTokenError::UnexpectedError),
        },
    }
}

/// Authenticates the bearer of `token` at the instant `now`: the codec must
/// accept the token and the revocation store must not hold it. A text that
/// the codec refuses never reaches the store, so what the codec refuses is
/// told as the codec tells it, whatever the store.
pub fn validate_token<B: BannedTokenStore>(
    token: &str,
    banned_token_store: &B,
    token_codec: &TokenCodec,
    now: u64,
) -> (r: Result<Email, ValidateTokenError>)
    ensures
        match token_verdict(token_codec.secret(), token@, now) {
            Err(TokenError::Expired) => r == Err::<Email, ValidateTokenError>(
                ValidateTokenError::Expired,
            ),
            Err(TokenError::BadSignature) => r == Err::<Email, ValidateTokenError>(
                ValidateTokenError::BadSignature,
            ),
            Ok(subject) => match r {
                Ok(email) => email@ == subject,
                Err(e) => e == ValidateTokenError::Banned || e
                    == ValidateTokenError::UnexpectedError,
            },
        },
        B::modelled() ==> r == Err::<Email, ValidateTokenError>(
            ValidateTokenError::UnexpectedError,
        ) || authentication_view(r) == authentication_outcome(
            token_codec.secret(),
            banned_token_store.banned(),
            token@,
            now,
        ),
{
    let verdict = token_codec.verify(token, now);
    let banned = match verdict {
        Ok(_) => Some(banned_token_store.is_token_banned(token)),
        Err(_) => None,
    };
    authentication_result(verdict, banned)
}

/// An authentication result over plain values.
pub open spec fn authentication_view(r: Result<Email, ValidateTokenError>) -> Result<
    Seq<char>,
    ValidateTokenError,
> {
    match r {
        Ok(email) => Ok(email@),
        Err(e) => Err(e),
    }
}

/// A banned token authenticates nobody, though the codec still accepts it.
pub proof fn lemma_banned_token_rejected(
    secret: Seq<char>,
    banned: Set<Seq<char>>,
    token: Seq<char>,
    now: u64,
)
    requires
        token_verdict(secret, token, now) is Ok,
    ensures
        authentication_outcome(secret, banned.insert(token), token, now) == Err::<
            Seq<char>,
            ValidateTokenError,
        >(ValidateTokenError::Banned),
{
}

} // verus!
