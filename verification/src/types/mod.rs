//! The credentials a request was found to carry.

pub mod used_api_key;
pub mod used_basic_auth;
pub mod used_bearer_token;
