//! Credential-and-session authentication: accounts are registered, logins are
//! checked against the stored credentials, and a session identifier derived
//! from the username is issued and later resolved back to its owner.

pub mod credentials;
pub mod digest;
pub mod engine;
pub mod handlers;
pub mod laws;
pub mod models;
pub mod outcomes;
pub mod profiles;
pub mod protocol;
pub mod replies;
pub mod sessions;

pub use crate::handlers::AppState;
