//! Core of a local, profile-based record vault: a catalog of password-protected
//! profiles, a credential engine that turns a password into a verifiable hash and
//! a reproducible storage key, a single-slot session, and the record store logic
//! gated by that session.

pub mod commands;
pub mod credential;
pub mod errors;
pub mod ext;
pub mod models;
pub mod profile;
pub mod session;
pub mod store;
