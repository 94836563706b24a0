//! The two-factor challenge store that keeps its challenges in memory.

use vstd::prelude::*;
use vstd::hash_map::StringHashMap;
use crate::domain::data_stores::{
    LoginAttemptId, TwoFACode, TwoFACodeStore, TwoFACodeStoreError,
};
use crate::domain::email::Email;

verus! {

/// The challenges that the stored pairs stand for.
spec fn challenges_of(stored: Map<Seq<char>, (LoginAttemptId, TwoFACode)>) -> Map<
    Seq<char>,
    (Seq<char>, Seq<char>),
> {
    stored.map_values(|pair: (LoginAttemptId, TwoFACode)| (pair.0@, pair.1@))
}

/// A two-factor challenge store that lives as long as the process.
pub struct HashMapTwoFACodeStore {
    codes: StringHashMap<(LoginAttemptId, TwoFACode)>,
}

impl HashMapTwoFACodeStore {
    /// A store without challenges.
    pub fn new() -> (store: Self)
        ensures
            store.codes() == Map::<Seq<char>, (Seq<char>, Seq<char>)>::empty(),
    {
        let store = HashMapTwoFACodeStore { codes: StringHashMap::new() };
        assert(challenges_of(store.codes@) =~= Map::<Seq<char>, (Seq<char>, Seq<char>)>::empty());
        store
    }
}

impl Default for HashMapTwoFACodeStore {
    fn default() -> (store: Self)
        ensures
            store.codes() == Map::<Seq<char>, (Seq<char>, Seq<char>)>::empty(),
    {
        HashMapTwoFACodeStore::new()
    }
}

impl TwoFACodeStore for HashMapTwoFACodeStore {
    open spec fn modelled() -> bool {
        true
    }

    closed spec fn codes(&self) -> Map<Seq<char>, (Seq<char>, Seq<char>)> {
        challenges_of(self.codes@)
    }

    fn add_code(&mut self, email: Email, login_attempt_id: LoginAttemptId, code: TwoFACode) -> (r:
        Result<(), TwoFACodeStoreError>)
        ensures
            r is Ok,
    {
        let ghost before = self.codes@;
        let ghost challenge = (login_attempt_id@, code@);
        self.codes.insert(email.as_ref().to_owned(), (login_attempt_id, code));
        assert(challenges_of(self.codes@) =~= challenges_of(before).insert(email@, challenge));
        Ok(())
    }

    fn remove_code(&mut self, email: &Email) -> (r: Result<(), TwoFACodeStoreError>)
        ensures
            r is Ok,
    {
        let ghost before = self.codes@;
        self.codes.remove(email.as_ref());
        assert(challenges_of(self.codes@) =~= challenges_of(before).remove(email@));
        Ok(())
    }

    fn get_code(&self, email: &Email) -> (r: Result<
        (LoginAttemptId, TwoFACode),
        TwoFACodeStoreError,
    >)
        ensures
            r is Ok <==> self.codes().contains_key(email@),
            r is Err ==> r == Err::<(LoginAttemptId, TwoFACode), TwoFACodeStoreError>(
                TwoFACodeStoreError::LoginAttemptIdNotFound,
            ),
    {
        match self.codes.get(email.as_ref()) {
            Some(pair) => Ok((pair.0.clone(), pair.1.clone())),
            None => Err(TwoFACodeStoreError::LoginAttemptIdNotFound),
        }
    }
}

} // verus!
