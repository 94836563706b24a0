//! The revocation store that keeps its tokens in memory.

use vstd::prelude::*;
use vstd::hash_set::StringHashSet;
use crate::domain::data_stores::{BannedTokenStore, BannedTokenStoreError};

verus! {

/// A revocation store that lives as long as the process. Its entries never
/// expire, so a banned token stays banned for as long as it could be shown.
pub struct HashsetBannedTokenStore {
    tokens: StringHashSet,
}

impl HashsetBannedTokenStore {
    /// A store without tokens.
    pub fn new() -> (store: Self)
        ensures
            store.banned() == Set::<Seq<char>>::empty(),
    {
        HashsetBannedTokenStore { tokens: StringHashSet::new() }
    }
}

impl Default for HashsetBannedTokenStore {
    fn default() -> (store: Self)
        ensures
            store.banned() == Set::<Seq<char>>::empty(),
    {
        HashsetBannedTokenStore::new()
    }
}

impl BannedTokenStore for HashsetBannedTokenStore {
    open spec fn modelled() -> bool {
        true
    }

    closed spec fn banned(&self) -> Set<Seq<char>> {
        self.tokens@
    }

    fn ban_token(&mut self, token: &str) -> (r: Result<(), BannedTokenStoreError>)
        ensures
            r is Ok,
    {
        self.tokens.insert(token.to_owned());
        Ok(())
    }

    fn is_token_banned(&self, token: &str) -> (r: Result<bool, BannedTokenStoreError>)
        ensures
            r is Ok,
    {
        Ok(self.tokens.contains(token))
    }
}

} // verus!
