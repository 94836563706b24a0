//! Credential and session lifecycle of an authentication backend: validated
//! identity values, password hashing, signed session tokens, the three store
//! capabilities with their in-memory backends, and the request-level
//! operations built on them.

pub mod domain;
pub mod utils;
pub mod services;
pub mod routes;
