//! The credential store that keeps its records in memory.

use vstd::prelude::*;
use vstd::hash_map::StringHashMap;
use crate::domain::data_stores::{
    check_credentials, stored_record, validate_outcome, UserStore, UserStoreError,
};
use crate::domain::email::Email;
use crate::domain::password::{is_valid_password, Password};
use crate::domain::user::{User, UserView};
use crate::utils::hashing::{
    begins_with, compute_password_hash, lemma_standard_hash_safe, standard_header,
    PasswordHashError, PASSWORD_CHARS_LIMIT,
};

verus! {

/// What filing `user` does to the records `before` once hashing its
/// password has given `hashed`: a taken email is refused whatever the hash;
/// a usable hash files the record; without one nothing is filed.
pub open spec fn file_outcome(
    before: Map<Seq<char>, UserView>,
    user: UserView,
    hashed: Option<Seq<char>>,
) -> (Result<(), UserStoreError>, Map<Seq<char>, UserView>) {
    if before.contains_key(user.email) {
        (Err(UserStoreError::UserAlreadyExists), before)
    } else {
        match hashed {
            Some(hash) => if is_valid_password(hash) {
                (Ok(()), before.insert(user.email, stored_record(user, hash)))
            } else {
                (Err(UserStoreError::UnexpectedError), before)
            },
            None => (Err(UserStoreError::UnexpectedError), before),
        }
    }
}

/// The hash text that a hashing result carries, if any.
pub open spec fn hash_text(hashed: Result<String, PasswordHashError>) -> Option<Seq<char>> {
    match hashed {
        Ok(hash) => Some(hash@),
        Err(_) => None,
    }
}

/// What the store keeps of a user under the email: the password hash and
/// the second-factor flag.
struct Credential {
    password: Password,
    requires_2fa: bool,
}

/// The records that the stored credentials stand for.
spec fn records_of(stored: Map<Seq<char>, Credential>) -> Map<Seq<char>, UserView> {
    Map::new(
        |email: Seq<char>| stored.contains_key(email),
        |email: Seq<char>|
            UserView {
                email,
                password: stored[email].password@,
                requires_2fa: stored[email].requires_2fa,
            },
    )
}

/// A credential store that lives as long as the process.
pub struct HashMapUserStore {
    users: StringHashMap<Credential>,
}

impl HashMapUserStore {
    /// A store without records.
    pub fn new() -> (store: Self)
        ensures
            store.users() == Map::<Seq<char>, UserView>::empty(),
    {
        let store = HashMapUserStore { users: StringHashMap::new() };
        assert(records_of(store.users@) =~= Map::<Seq<char>, UserView>::empty());
        store
    }

    /// Files `user` under the hash that was computed for its password,
    /// whatever the hasher gave.
    pub fn file_hashed(&mut self, user: User, hashed: Result<String, PasswordHashError>) -> (r:
        Result<(), UserStoreError>)
        ensures
            (r, final(self).users()) == file_outcome(old(self).users(), user@, hash_text(hashed)),
    {
        if self.users.contains_key(user.email.as_ref()) {
            return Err(UserStoreError::UserAlreadyExists);
        }
        let hash = match hashed {
            Ok(hash) => hash,
            Err(_) => {
                return Err(UserStoreError::UnexpectedError);
            },
        };
        let password = match Password::parse(hash) {
            Ok(password) => password,
            Err(_) => {
                return Err(UserStoreError::UnexpectedError);
            },
        };
        let ghost before = self.users@;
        let key = user.email.as_ref().to_owned();
        self.users.insert(key, Credential { password, requires_2fa: user.requires_2fa });
        proof {
            assert(records_of(self.users@) =~= records_of(before).insert(
                user.email@,
                stored_record(user@, hash_text(hashed).unwrap()),
            ));
        }
        Ok(())
    }
}

impl Default for HashMapUserStore {
    fn default() -> (store: Self)
        ensures
            store.users() == Map::<Seq<char>, UserView>::empty(),
    {
        HashMapUserStore::new()
    }
}

impl UserStore for HashMapUserStore {
    open spec fn modelled() -> bool {
        true
    }

    closed spec fn users(&self) -> Map<Seq<char>, UserView> {
        records_of(self.users@)
    }

    /// Refuses a taken email before any hashing is done; else hashes the
    /// password and files the record. A new email is filed, unless its
    /// password is too long to hash.
    fn add_user(&mut self, user: User) -> (r: Result<(), UserStoreError>)
        ensures
            old(self).users().contains_key(user.email@) <==> r == Err::<(), UserStoreError>(
                UserStoreError::UserAlreadyExists,
            ),
            !old(self).users().contains_key(user.email@) && user.password@.len()
                < PASSWORD_CHARS_LIMIT ==> r is Ok,
            r is Ok ==> begins_with(final(self).users()[user.email@].password, standard_header()),
    {
        if self.users.contains_key(user.email.as_ref()) {
            return Err(UserStoreError::UserAlreadyExists);
        }
        let hashed = compute_password_hash(user.password.as_ref());
        proof {
            if hashed is Ok {
                lemma_standard_hash_safe(hashed->Ok_0@);
            }
        }
        self.file_hashed(user, hashed)
    }

    fn get_user(&self, email: &Email) -> (r: Result<User, UserStoreError>)
        ensures
            r is Ok <==> self.users().contains_key(email@),
            r is Err ==> r == Err::<User, UserStoreError>(UserStoreError::UserNotFound),
    {
        match self.users.get(email.as_ref()) {
            Some(stored) => Ok(
                User {
                    email: email.clone(),
                    password: stored.password.clone(),
                    requires_2fa: stored.requires_2fa,
                },
            ),
            None => Err(UserStoreError::UserNotFound),
        }
    }

    fn validate_user(&self, email: &Email, password: &Password) -> (r: Result<
        User,
        UserStoreError,
    >)
        ensures
            match r {
                Ok(user) => validate_outcome(self.users(), email@, password@) == Ok::<
                    UserView,
                    UserStoreError,
                >(user@),
                Err(e) => validate_outcome(self.users(), email@, password@) == Err::<
                    UserView,
                    UserStoreError,
                >(e),
            },
    {
        match self.get_user(email) {
            Ok(user) => check_credentials(user, password),
            Err(e) => Err(e),
        }
    }
}

/// In this store the second user with an email is refused as a duplicate,
/// whatever its password hashes to, and nothing changes.
pub proof fn lemma_duplicate_refused(
    before: Map<Seq<char>, UserView>,
    first: UserView,
    first_hash: Option<Seq<char>>,
    second: UserView,
    second_hash: Option<Seq<char>>,
)
    requires
        file_outcome(before, first, first_hash).0 is Ok,
        second.email == first.email,
    ensures
        file_outcome(file_outcome(before, first, first_hash).1, second, second_hash) == (
            Err::<(), UserStoreError>(UserStoreError::UserAlreadyExists),
            file_outcome(before, first, first_hash).1,
        ),
{
}

} // verus!
