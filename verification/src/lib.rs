//! Credential-session lifecycle core: random identifiers, rotating
//! authentication tokens bound to a session, and one-way digests of the
//! secrets, over a pluggable record store.

pub mod error;
pub mod decimal;
pub mod id;
pub mod hash;
pub mod harness;
pub mod auth_token;
pub mod session;
