//! Identity and session authentication core.
//!
//! Account registration with hashed credentials, an email-verification token
//! lifecycle, credential login producing a signed session token, and a
//! per-request gate that validates that token. Storage is an in-memory
//! account repository with the uniqueness invariants a database would
//! enforce; hashing, token signing and identifier handling go through
//! narrow trusted bindings to their crates.

pub mod config;
pub mod credentials;
pub mod extractor;
pub mod lifecycle;
pub mod notification;
pub mod session;
pub mod store;
pub mod tokens;
