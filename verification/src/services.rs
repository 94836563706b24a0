//! The store backends and the helpers of those that live outside the
//! process.

pub mod data_stores;
pub mod hashmap_user_store;
pub mod mock_email_client;

pub use data_stores::hashmap_two_fa_code_store::HashMapTwoFACodeStore;
pub use data_stores::hashset_banned_token_store::HashsetBannedTokenStore;
pub use hashmap_user_store::HashMapUserStore;
pub use mock_email_client::MockEmailClient;
