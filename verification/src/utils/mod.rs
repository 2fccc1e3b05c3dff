//! Decisions made around the authentication exchanges and the credential store.

pub mod auth;
pub mod secure_storage;
