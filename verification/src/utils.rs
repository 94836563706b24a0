//! Password hashing, session tokens and the text helpers they are built from.

pub mod auth;
pub mod hashing;
pub mod text;
