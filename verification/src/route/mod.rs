//! The routes' handlers: what each one answers with, given what its extractors read.

pub mod api_key_protected;
pub mod base;
pub mod books;
pub mod error;
pub mod extract_api_key;
pub mod extract_api_key_optional;
pub mod extract_bearer_token;
pub mod extract_jwt_claims;
pub mod extract_valid_api_key;
pub mod extract_valid_api_key_optional;
pub mod post_json;
pub mod validated;
