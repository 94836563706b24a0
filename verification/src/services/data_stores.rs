//! Backends of the revocation and two-factor stores, and what the
//! relational and cache backends compute around their calls.

pub mod hashmap_two_fa_code_store;
pub mod hashset_banned_token_store;
pub mod postgres_user_store;
pub mod redis_banned_token_store;
pub mod redis_two_fa_code_store;
