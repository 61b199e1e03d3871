//! Decisions behind fetching from and pushing to a git remote over HTTPS or SSH.
//!
//! - [`credential`]: which credential a credential callback hands to the host,
//!   and when it refuses. Credentials travel through the callback only.
//! - [`credential_laws`]: what holds over a whole conversation with a host.
//! - [`push`]: what the outcome of a push is, given what the remote said.
//! - [`push_laws`]: what holds of the outcome of every push.
//! - [`delta`]: how far a branch and its remote counterpart are apart.
//! - [`error`]: errors of git2 as plain values, and the errors callers see.
//! - [`text`]: the functions on strings that the rest needs.
//!
//! Opening repositories and talking to hosts is left to the program that uses
//! this library.

pub mod credential;
pub mod credential_laws;
pub mod delta;
pub mod error;
pub mod push;
pub mod push_laws;
pub mod text;
