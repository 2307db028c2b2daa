//! Routes that read basic auth credentials.

pub mod extract_authenticated_basic_auth;
pub mod extract_basic_auth;
