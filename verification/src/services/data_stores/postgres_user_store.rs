//! What a credential store on a relational database computes: the row it
//! inserts for a new user, what the database's refusals mean, and how a row
//! that was fetched becomes a record and is checked.

use vstd::prelude::*;
use crate::domain::data_stores::{
    check_credentials, credentials_outcome, UserStoreError,
};
use crate::domain::email::{is_email_address, Email};
use crate::domain::password::{is_valid_password, Password};
use crate::domain::user::{User, UserView};
use crate::utils::hashing::{
    begins_with, compute_password_hash, hash_check, lemma_standard_hash_safe, standard_header,
    PasswordHashError,
    PASSWORD_CHARS_LIMIT,
};

verus! {

/// A row of the table of users.
#[derive(Debug)]
pub struct UserRow {
    pub email: String,
    pub password_hash: String,
    pub requires_2fa: bool,
}

/// What a row holds, as plain values.
pub ghost struct UserRowView {
    pub email: Seq<char>,
    pub password_hash: Seq<char>,
    pub requires_2fa: bool,
}

impl View for UserRow {
    type V = UserRowView;

    open spec fn view(&self) -> UserRowView {
        UserRowView {
            email: self.email@,
            password_hash: self.password_hash@,
            requires_2fa: self.requires_2fa,
        }
    }
}

/// Why the database refused an insert.
#[derive(Debug, Clone, Copy, PartialEq, Eq, Structural)]
pub enum InsertFailure {
    /// A row with this email is there already.
    UniqueViolation,
    /// Anything else.
    Other,
}

/// The row to insert for `user` once hashing its password has given
/// `hashed`.
pub fn row_from_hash(user: &User, hashed: Result<String, PasswordHashError>) -> (r: Result<
    UserRow,
    UserStoreError,
>)
    ensures
        match r {
            Ok(row) => hashed matches Ok(hash) && row@ == (UserRowView {
                email: user.email@,
                password_hash: hash@,
                requires_2fa: user.requires_2fa,
            }),
            Err(e) => hashed is Err && e == UserStoreError::UnexpectedError,
        },
{
    match hashed {
        Ok(password_hash) => Ok(
            UserRow {
                email: user.email.as_ref().to_owned(),
                password_hash,
                requires_2fa: user.requires_2fa,
            },
        ),
        Err(_) => Err(UserStoreError::UnexpectedError),
    }
}

/// Hashes the password of `user` and makes the row to insert. A row is
/// made unless the password is too long to hash. The hash of any row that
/// comes back begins with the header of this library's hashes and verifies
/// against that password, and the row can stand for a record.
pub fn new_user_row(user: &User) -> (r: Result<UserRow, UserStoreError>)
    ensures
        match r {
            Ok(row) => {
                &&& row.email@ == user.email@
                &&& row.requires_2fa == user.requires_2fa
                &&& begins_with(row.password_hash@, standard_header())
                &&& hash_check(row.password_hash@, user.password@) == Some(true)
                &&& row_usable(row@)
            },
            Err(e) => e == UserStoreError::UnexpectedError,
        },
        user.password@.len() < PASSWORD_CHARS_LIMIT ==> r is Ok,
{
    let hashed = compute_password_hash(user.password.as_ref());
    // Asking the email for its text tells that it is an email's.
    let _ = user.email.as_ref();
    proof {
        if hashed is Ok {
            lemma_standard_hash_safe(hashed->Ok_0@);
        }
    }
    row_from_hash(user, hashed)
}

/// What a refused insert means: a duplicate email where the database
/// reports its uniqueness constraint, an unexpected error otherwise.
pub fn insert_error(failure: InsertFailure) -> (e: UserStoreError)
    ensures
        e == (match failure {
            InsertFailure::UniqueViolation => UserStoreError::UserAlreadyExists,
            InsertFailure::Other => UserStoreError::UnexpectedError,
        }),
{
    match failure {
        InsertFailure::UniqueViolation => UserStoreError::UserAlreadyExists,
        InsertFailure::Other => UserStoreError::UnexpectedError,
    }
}

/// The record that a fetched row stands for.
pub open spec fn record_of(row: UserRowView) -> UserView {
    UserView { email: row.email, password: row.password_hash, requires_2fa: row.requires_2fa }
}

/// Whether a row can stand for a record: its email is one and its hash is
/// long enough to be held as a password.
pub open spec fn row_usable(row: UserRowView) -> bool {
    is_email_address(row.email) && is_valid_password(row.password_hash)
}

/// The record that the fetched `row` stands for: `UserNotFound` where no
/// row came back, an unexpected error where the row is unusable.
pub fn user_from_row(row: Option<UserRow>) -> (r: Result<User, UserStoreError>)
    ensures
        match r {
            Ok(user) => row matches Some(found) && row_usable(found@) && user@ == record_of(
                found@,
            ),
            Err(UserStoreError::UserNotFound) => row is None,
            Err(UserStoreError::UnexpectedError) => row matches Some(found) && !row_usable(found@),
            Err(_) => false,
        },
{
    match row {
        None => Err(UserStoreError::UserNotFound),
        Some(found) => match (Email::parse(found.email), Password::parse(found.password_hash)) {
            (Ok(email), Ok(password)) => Ok(
                User { email, password, requires_2fa: found.requires_2fa },
            ),
            _ => Err(UserStoreError::UnexpectedError),
        },
    }
}

/// What validating a password against a fetched row gives.
pub open spec fn row_outcome(row: Option<UserRowView>, password: Seq<char>) -> Result<
    UserView,
    UserStoreError,
> {
    match row {
        None => Err(UserStoreError::UserNotFound),
        Some(found) => if row_usable(found) {
            credentials_outcome(record_of(found), password)
        } else {
            Err(UserStoreError::UnexpectedError)
        },
    }
}

/// The views of a fetched row.
pub open spec fn row_view(row: Option<UserRow>) -> Option<UserRowView> {
    match row {
        Some(found) => Some(found@),
        None => None,
    }
}

/// Validates `password` against the row that was fetched for an email.
pub fn validate_row(row: Option<UserRow>, password: &Password) -> (r: Result<
    User,
    UserStoreError,
>)
    ensures
        match r {
            Ok(user) => row_outcome(row_view(row), password@) == Ok::<UserView, UserStoreError>(
                user@,
            ),
            Err(e) => row_outcome(row_view(row), password@) == Err::<UserView, UserStoreError>(e),
        },
{
    match user_from_row(row) {
        Ok(user) => check_credentials(user, password),
        Err(e) => Err(e),
    }
}

/// A row that was made for a user validates with the password it was made
/// from, and the record that comes back carries the user's email and flag.
pub proof fn lemma_new_row_validates(row: UserRowView, user: UserView)
    requires
        row.email == user.email,
        row.requires_2fa == user.requires_2fa,
        hash_check(row.password_hash, user.password) == Some(true),
        row_usable(row),
    ensures
        row_outcome(Some(row), user.password) == Ok::<UserView, UserStoreError>(record_of(row)),
        record_of(row).email == user.email,
        record_of(row).requires_2fa == user.requires_2fa,
{
}

} // verus!
