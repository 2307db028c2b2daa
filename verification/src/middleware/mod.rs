//! Decisions of the middleware layers.

pub mod basic_auth;
pub mod method_not_allowed;
pub mod not_found;
