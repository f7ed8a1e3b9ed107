//! Account credential and authentication-configuration resolution.
//!
//! A user-authored account document is read into a partially typed raw
//! form, then mapped into validated protocol configurations whose
//! authentication material (a password or an OAuth2 bearer token) is
//! produced on demand from literal, command or keyring sources.
pub mod text;
pub mod document;
pub mod error;
pub mod fields;
pub mod secret;
pub mod oauth2;
pub mod auth;
pub mod protocol;
pub mod sync;
pub mod account;
