//! Login-attempt identifiers, two-factor codes, and the three store
//! capabilities with the contracts that every backend keeps.

use vstd::prelude::*;
use vstd::std_specs::cmp::PartialEqSpecImpl;
use vstd::string::StringExecFns;
use crate::domain::email::Email;
use crate::domain::password::Password;
use crate::domain::user::{User, UserView};
use crate::utils::hashing::{hash_check, verify_password_hash};
use crate::utils::text::{all_digits, chars_of, is_digit, six_digit_string, six_digit_text};

verus! {

/// What `uuid::Uuid::parse_str` makes of the text `s`: `None` where it
/// parses as a UUID, else the text of the error.
pub uninterp spec fn uuid_parse_error(s: Seq<char>) -> Option<Seq<char>>;

/// Calls `uuid::Uuid::parse_str` and keeps of its result whether the text
/// parsed or, if not, the error's `Display` text. Both depend on the text
/// alone and are what [`uuid_parse_error`] names.
#[verifier::external_body]
fn parse_uuid(s: &str) -> (r: Result<(), String>)
    ensures
        match r {
            Ok(()) => uuid_parse_error(s@) is None,
            Err(message) => uuid_parse_error(s@) == Some(message@),
        },
{
    match uuid::Uuid::parse_str(s) {
        Ok(_) => Ok(()),
        Err(e) => Err(e.to_string()),
    }
}

/// Calls `uuid::Uuid::new_v4` and writes the random UUID in its hyphenated
/// form, one of the forms that `parse_str` is documented to accept.
#[verifier::external_body]
fn new_uuid_text() -> (s: String)
    ensures
        uuid_parse_error(s@) is None,
{
    uuid::Uuid::new_v4().to_string()
}

/// Calls `rand::random::<u32>()`. Any value may come back.
#[verifier::external_body]
fn random_u32() -> u32 {
    rand::random::<u32>()
}

/// Whether `s` parses as a UUID.
pub open spec fn is_login_attempt_id(s: Seq<char>) -> bool {
    uuid_parse_error(s) is None
}

/// The message that rejects a text which is no UUID.
pub open spec fn invalid_login_attempt_id_message(s: Seq<char>) -> Seq<char> {
    "Invalid UUID format: "@ + uuid_parse_error(s).unwrap()
}

/// The identifier of one login attempt that waits for its second factor: a
/// string that parses as a UUID.
#[derive(Debug)]
pub struct LoginAttemptId(String);

impl View for LoginAttemptId {
    type V = Seq<char>;

    closed spec fn view(&self) -> Seq<char> {
        self.0@
    }
}

impl LoginAttemptId {
    #[verifier::type_invariant]
    spec fn well_formed(self) -> bool {
        is_login_attempt_id(self.0@)
    }

    /// Accepts `id` exactly when it parses as a UUID.
    pub fn parse(id: String) -> (r: Result<Self, String>)
        ensures
            match r {
                Ok(parsed) => is_login_attempt_id(id@) && parsed@ == id@,
                Err(message) => !is_login_attempt_id(id@) && message@
                    == invalid_login_attempt_id_message(id@),
            },
    {
        match parse_uuid(id.as_str()) {
            Ok(()) => Ok(LoginAttemptId(id)),
            Err(reason) => {
                Err("Invalid UUID format: ".to_owned().concat(reason.as_str()))
            },
        }
    }
}

impl Default for LoginAttemptId {
    /// A fresh random identifier.
    fn default() -> (r: Self)
        ensures
            is_login_attempt_id(r@),
    {
        LoginAttemptId(new_uuid_text())
    }
}

impl AsRef<str> for LoginAttemptId {
    /// The identifier as text, which parses as a UUID.
    fn as_ref(&self) -> (s: &str)
        ensures
            s@ == self@,
            is_login_attempt_id(self@),
    {
        proof {
            use_type_invariant(self);
        }
        self.0.as_str()
    }
}

impl Clone for LoginAttemptId {
    fn clone(&self) -> (r: Self)
        ensures
            r@ == self@,
    {
        proof {
            use_type_invariant(self);
        }
        LoginAttemptId(self.0.clone())
    }
}

impl PartialEq for LoginAttemptId {
    fn eq(&self, other: &Self) -> (r: bool) {
        self.0 == other.0
    }
}

impl PartialEqSpecImpl for LoginAttemptId {
    open spec fn obeys_eq_spec() -> bool {
        true
    }

    open spec fn eq_spec(&self, other: &Self) -> bool {
        self@ == other@
    }
}

/// The number of digits of a two-factor code.
pub const TWO_FA_CODE_LENGTH: usize = 6;

/// One more than the largest number a two-factor code can write.
pub const TWO_FA_CODE_COUNT: u32 = 1_000_000;

/// Whether `s` is exactly six decimal digits.
pub open spec fn is_two_fa_code(s: Seq<char>) -> bool {
    s.len() == TWO_FA_CODE_LENGTH && all_digits(s)
}

/// The message that rejects a text which is no two-factor code.
pub open spec fn invalid_two_fa_code_message() -> Seq<char> {
    "Invalid 2FA code"@
}

/// A two-factor code: exactly six decimal digits.
#[derive(Debug)]
pub struct TwoFACode(String);

impl View for TwoFACode {
    type V = Seq<char>;

    closed spec fn view(&self) -> Seq<char> {
        self.0@
    }
}

impl TwoFACode {
    #[verifier::type_invariant]
    spec fn well_formed(self) -> bool {
        is_two_fa_code(self.0@)
    }

    /// Accepts `code` exactly when it is six decimal digits.
    pub fn parse(code: &str) -> (r: Result<Self, String>)
        ensures
            match r {
                Ok(parsed) => is_two_fa_code(code@) && parsed@ == code@,
                Err(message) => !is_two_fa_code(code@) && message@
                    == invalid_two_fa_code_message(),
            },
    {
        let chars = chars_of(code);
        if chars.len() != TWO_FA_CODE_LENGTH {
            return Err("Invalid 2FA code".to_owned());
        }
        let mut i: usize = 0;
        while i < chars.len()
            invariant
                i <= chars.len(),
                chars@ == code@,
                forall|k: int| 0 <= k < i ==> is_digit(#[trigger] chars@[k]),
            decreases chars.len() - i,
        {
            let c = chars[i];
            if !('0' <= c && c <= '9') {
                assert(!is_digit(code@[i as int]));
                return Err("Invalid 2FA code".to_owned());
            }
            i = i + 1;
        }
        Ok(TwoFACode(code.to_owned()))
    }

    /// The code that the number `n` selects: the last six decimal digits of
    /// `n`, zeros included.
    pub fn from_number(n: u32) -> (code: Self)
        ensures
            code@ == six_digit_text((n % TWO_FA_CODE_COUNT) as nat),
            is_two_fa_code(code@),
    {
        TwoFACode(six_digit_string(n % TWO_FA_CODE_COUNT))
    }
}

impl Default for TwoFACode {
    /// A fresh random code.
    fn default() -> (r: Self)
        ensures
            is_two_fa_code(r@),
    {
        TwoFACode::from_number(random_u32())
    }
}

impl AsRef<str> for TwoFACode {
    /// The code as text: six decimal digits.
    fn as_ref(&self) -> (s: &str)
        ensures
            s@ == self@,
            is_two_fa_code(self@),
    {
        proof {
            use_type_invariant(self);
        }
        self.0.as_str()
    }
}

impl Clone for TwoFACode {
    fn clone(&self) -> (r: Self)
        ensures
            r@ == self@,
    {
        proof {
            use_type_invariant(self);
        }
        TwoFACode(self.0.clone())
    }
}

impl PartialEq for TwoFACode {
    fn eq(&self, other: &Self) -> (r: bool) {
        self.0 == other.0
    }
}

impl PartialEqSpecImpl for TwoFACode {
    open spec fn obeys_eq_spec() -> bool {
        true
    }

    open spec fn eq_spec(&self, other: &Self) -> bool {
        self@ == other@
    }
}

/// Why a credential store refused or failed.
#[derive(Debug, Clone, Copy, PartialEq, Eq, Structural)]
pub enum UserStoreError {
    UserAlreadyExists,
    UserNotFound,
    InvalidCredentials,
    UnexpectedError,
}

/// Why a two-factor challenge store refused or failed.
#[derive(Debug, Clone, Copy, PartialEq, Eq, Structural)]
pub enum TwoFACodeStoreError {
    LoginAttemptIdNotFound,
    UnexpectedError,
}

/// Why a revocation store failed.
#[derive(Debug, Clone, Copy, PartialEq, Eq, Structural)]
pub enum BannedTokenStoreError {
    UnexpectedError,
}

/// The record that a credential store files for `user` once its password
/// has been hashed to `hash`.
pub open spec fn stored_record(user: UserView, hash: Seq<char>) -> UserView {
    UserView { email: user.email, password: hash, requires_2fa: user.requires_2fa }
}

/// What `add_user` may do to the records `before` when it is given `user`
/// (raw password) and answers `r`: on success exactly one record is new,
/// filed under the user's email, equal to the user but for the password,
/// which is a hash that verifies against the raw one; on every failure
/// nothing changes, and a duplicate is reported only where there is one.
pub open spec fn add_user_post(
    before: Map<Seq<char>, UserView>,
    user: UserView,
    r: Result<(), UserStoreError>,
    after: Map<Seq<char>, UserView>,
) -> bool {
    match r {
        Ok(()) => {
            &&& !before.contains_key(user.email)
            &&& after == before.insert(user.email, after[user.email])
            &&& after[user.email] == stored_record(user, after[user.email].password)
            &&& hash_check(after[user.email].password, user.password) == Some(true)
        },
        Err(UserStoreError::UserAlreadyExists) => before.contains_key(user.email) && after
            == before,
        Err(UserStoreError::UnexpectedError) => after == before,
        Err(_) => false,
    }
}

/// What `get_user` may answer for `email` over the records `users`.
pub open spec fn get_user_post(
    users: Map<Seq<char>, UserView>,
    email: Seq<char>,
    r: Result<User, UserStoreError>,
) -> bool {
    match r {
        Ok(user) => users.contains_key(email) && user@ == users[email] && user.email@ == email,
        Err(UserStoreError::UserNotFound) => !users.contains_key(email),
        Err(UserStoreError::UnexpectedError) => true,
        Err(_) => false,
    }
}

/// What checking `password` against the stored `record` gives: the record
/// on a match, `InvalidCredentials` on a mismatch, `UnexpectedError` where
/// the stored hash cannot be checked.
pub open spec fn credentials_outcome(record: UserView, password: Seq<char>) -> Result<
    UserView,
    UserStoreError,
> {
    match hash_check(record.password, password) {
        Some(true) => Ok(record),
        Some(false) => Err(UserStoreError::InvalidCredentials),
        None => Err(UserStoreError::UnexpectedError),
    }
}

/// What validating `email` and `password` against the records `users`
/// gives where the backend itself does not fail.
pub open spec fn validate_outcome(
    users: Map<Seq<char>, UserView>,
    email: Seq<char>,
    password: Seq<char>,
) -> Result<UserView, UserStoreError> {
    if users.contains_key(email) {
        credentials_outcome(users[email], password)
    } else {
        Err(UserStoreError::UserNotFound)
    }
}

/// What `validate_user` may answer: what [`validate_outcome`] gives, or
/// `UnexpectedError` where the backend fails.
pub open spec fn validate_user_post(
    users: Map<Seq<char>, UserView>,
    email: Seq<char>,
    password: Seq<char>,
    r: Result<User, UserStoreError>,
) -> bool {
    match r {
        Ok(user) => validate_outcome(users, email, password) == Ok::<UserView, UserStoreError>(
            user@,
        ) && user.email@ == email,
        Err(UserStoreError::UnexpectedError) => true,
        Err(e) => validate_outcome(users, email, password) == Err::<UserView, UserStoreError>(e),
    }
}

/// A credential store: the one owner of the user records.
///
/// The contracts speak of the store through its model, [`UserStore::users`].
/// The stores of this library have one. A backend that is written without
/// one keeps the defaults, and the contracts then claim nothing of it.
pub trait UserStore {
    /// Whether [`UserStore::users`] tells what the store holds.
    open spec fn modelled() -> bool {
        false
    }

    /// The records held, each under the text of its email.
    open spec fn users(&self) -> Map<Seq<char>, UserView> {
        Map::empty()
    }

    /// Files `user` under its email unless that email is taken.
    fn add_user(&mut self, user: User) -> (r: Result<(), UserStoreError>)
        ensures
            Self::modelled() ==> add_user_post(old(self).users(), user@, r, final(self).users()),
    ;

    /// The record filed under `email`.
    fn get_user(&self, email: &Email) -> (r: Result<User, UserStoreError>)
        ensures
            Self::modelled() ==> get_user_post(self.users(), email@, r),
    ;

    /// The record filed under `email`, where `password` verifies against
    /// its stored hash.
    fn validate_user(&self, email: &Email, password: &Password) -> (r: Result<
        User,
        UserStoreError,
    >)
        ensures
            Self::modelled() ==> validate_user_post(self.users(), email@, password@, r),
    ;
}

/// What `add_code` may do to the challenges `before`: on success the
/// challenge is the one live challenge of the email; a failure is an
/// unexpected error and changes nothing.
pub open spec fn add_code_post(
    before: Map<Seq<char>, (Seq<char>, Seq<char>)>,
    email: Seq<char>,
    challenge: (Seq<char>, Seq<char>),
    r: Result<(), TwoFACodeStoreError>,
    after: Map<Seq<char>, (Seq<char>, Seq<char>)>,
) -> bool {
    match r {
        Ok(()) => after == before.insert(email, challenge),
        Err(e) => e == TwoFACodeStoreError::UnexpectedError && after == before,
    }
}

/// What `remove_code` may do to the challenges `before`: on success the
/// email has no live challenge, whether it had one or not; a failure is an
/// unexpected error and changes nothing.
pub open spec fn remove_code_post(
    before: Map<Seq<char>, (Seq<char>, Seq<char>)>,
    email: Seq<char>,
    r: Result<(), TwoFACodeStoreError>,
    after: Map<Seq<char>, (Seq<char>, Seq<char>)>,
) -> bool {
    match r {
        Ok(()) => after == before.remove(email),
        Err(e) => e == TwoFACodeStoreError::UnexpectedError && after == before,
    }
}

/// What `get_code` may answer for `email` over the challenges `codes`.
pub open spec fn get_code_post(
    codes: Map<Seq<char>, (Seq<char>, Seq<char>)>,
    email: Seq<char>,
    r: Result<(LoginAttemptId, TwoFACode), TwoFACodeStoreError>,
) -> bool {
    match r {
        Ok(challenge) => codes.contains_key(email) && codes[email] == (
            challenge.0@,
            challenge.1@,
        ),
        Err(TwoFACodeStoreError::LoginAttemptIdNotFound) => !codes.contains_key(email),
        Err(TwoFACodeStoreError::UnexpectedError) => true,
    }
}

/// A two-factor challenge store: at most one live challenge per email.
///
/// The contracts speak of the store through its model,
/// [`TwoFACodeStore::codes`]. The stores of this library have one. A
/// backend that is written without one keeps the defaults, and the
/// contracts then claim nothing of it.
pub trait TwoFACodeStore {
    /// Whether [`TwoFACodeStore::codes`] tells what the store holds.
    open spec fn modelled() -> bool {
        false
    }

    /// The live challenges: attempt identifier and code, under the text of
    /// the email they were issued for.
    open spec fn codes(&self) -> Map<Seq<char>, (Seq<char>, Seq<char>)> {
        Map::empty()
    }

    /// Files a challenge for `email`, replacing the one that was there.
    fn add_code(&mut self, email: Email, login_attempt_id: LoginAttemptId, code: TwoFACode) -> (r:
        Result<(), TwoFACodeStoreError>)
        ensures
            Self::modelled() ==> add_code_post(
                old(self).codes(),
                email@,
                (login_attempt_id@, code@),
                r,
                final(self).codes(),
            ),
    ;

    /// Drops the challenge for `email`, if there is one.
    fn remove_code(&mut self, email: &Email) -> (r: Result<(), TwoFACodeStoreError>)
        ensures
            Self::modelled() ==> remove_code_post(old(self).codes(), email@, r, final(self).codes()),
    ;

    /// The live challenge for `email`.
    fn get_code(&self, email: &Email) -> (r: Result<
        (LoginAttemptId, TwoFACode),
        TwoFACodeStoreError,
    >)
        ensures
            Self::modelled() ==> get_code_post(self.codes(), email@, r),
    ;
}

/// What `ban_token` may do to the banned tokens `before`: on success the
/// token is among them, and on failure nothing changes.
pub open spec fn ban_token_post(
    before: Set<Seq<char>>,
    token: Seq<char>,
    r: Result<(), BannedTokenStoreError>,
    after: Set<Seq<char>>,
) -> bool {
    match r {
        Ok(()) => after == before.insert(token),
        Err(_) => after == before,
    }
}

/// What `is_token_banned` may answer for `token` over the banned tokens
/// `banned`.
pub open spec fn is_token_banned_post(
    banned: Set<Seq<char>>,
    token: Seq<char>,
    r: Result<bool, BannedTokenStoreError>,
) -> bool {
    match r {
        Ok(answer) => answer == banned.contains(token),
        Err(_) => true,
    }
}

/// A revocation store: the session tokens that were banned before they
/// expired.
///
/// The contracts speak of the store through its model,
/// [`BannedTokenStore::banned`]. The stores of this library have one. A
/// backend that is written without one keeps the defaults, and the
/// contracts then claim nothing of it.
pub trait BannedTokenStore {
    /// Whether [`BannedTokenStore::banned`] tells what the store holds.
    open spec fn modelled() -> bool {
        false
    }

    /// The banned tokens.
    open spec fn banned(&self) -> Set<Seq<char>> {
        Set::empty()
    }

    /// Bans `token`. Banning a banned token changes nothing.
    fn ban_token(&mut self, token: &str) -> (r: Result<(), BannedTokenStoreError>)
        ensures
            Self::modelled() ==> ban_token_post(old(self).banned(), token@, r, final(self).banned()),
    ;

    /// Whether `token` is banned.
    fn is_token_banned(&self, token: &str) -> (r: Result<bool, BannedTokenStoreError>)
        ensures
            Self::modelled() ==> is_token_banned_post(self.banned(), token@, r),
    ;
}

/// Checks `password` against the hash that the stored record `user`
/// carries, and hands the record back where it matches.
pub fn check_credentials(user: User, password: &Password) -> (r: Result<User, UserStoreError>)
    ensures
        match r {
            Ok(checked) => checked == user && credentials_outcome(user@, password@) == Ok::<
                UserView,
                UserStoreError,
            >(user@),
            Err(e) => credentials_outcome(user@, password@) == Err::<UserView, UserStoreError>(e),
        },
{
    match verify_password_hash(user.password.as_ref(), password.as_ref()) {
        Ok(true) => Ok(user),
        Ok(false) => Err(UserStoreError::InvalidCredentials),
        Err(_) => Err(UserStoreError::UnexpectedError),
    }
}

/// A user that was added validates with the credentials it was added with,
/// and the record that comes back carries the email it was added under.
pub proof fn lemma_added_user_validates(
    before: Map<Seq<char>, UserView>,
    user: UserView,
    after: Map<Seq<char>, UserView>,
)
    requires
        add_user_post(before, user, Ok(()), after),
    ensures
        validate_outcome(after, user.email, user.password) == Ok::<UserView, UserStoreError>(
            after[user.email],
        ),
        after[user.email].email == user.email,
        after[user.email].requires_2fa == user.requires_2fa,
{
}

/// An email can be added once: after a user was added, whatever a store
/// answers to a second user with the same email is a failure, and every
/// record, the first user's among them, is what it was.
pub proof fn lemma_second_add_fails(
    before: Map<Seq<char>, UserView>,
    first: UserView,
    between: Map<Seq<char>, UserView>,
    second: UserView,
    answer: Result<(), UserStoreError>,
    after: Map<Seq<char>, UserView>,
)
    requires
        add_user_post(before, first, Ok(()), between),
        second.email == first.email,
        add_user_post(between, second, answer, after),
    ensures
        answer is Err,
        answer == Err::<(), UserStoreError>(UserStoreError::UserAlreadyExists) || answer == Err::<
            (),
            UserStoreError,
        >(UserStoreError::UnexpectedError),
        after == between,
        after[first.email] == between[first.email],
{
}

/// The banned tokens after the tokens of `later` were banned one by one.
pub open spec fn banned_after(banned: Set<Seq<char>>, later: Seq<Seq<char>>) -> Set<Seq<char>>
    decreases later.len(),
{
    if later.len() == 0 {
        banned
    } else {
        banned_after(banned, later.drop_last()).insert(later.last())
    }
}

/// A banned token stays banned, whatever is banned after it.
pub proof fn lemma_ban_lasts(banned: Set<Seq<char>>, token: Seq<char>, later: Seq<Seq<char>>)
    ensures
        banned_after(banned.insert(token), later).contains(token),
    decreases later.len(),
{
    if later.len() > 0 {
        lemma_ban_lasts(banned, token, later.drop_last());
    }
}

/// Banning a token twice is banning it once.
pub proof fn lemma_ban_idempotent(banned: Set<Seq<char>>, token: Seq<char>)
    ensures
        banned.insert(token).insert(token) == banned.insert(token),
        banned.contains(token) ==> banned.insert(token) == banned,
{
    assert(banned.insert(token).insert(token) =~= banned.insert(token));
    if banned.contains(token) {
        assert(banned.insert(token) =~= banned);
    }
}

} // verus!
