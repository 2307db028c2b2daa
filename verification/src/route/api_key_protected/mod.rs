//! Routes behind the layer that validates the API key and hands it on.

pub mod api_key_from_extension;
pub mod do_not_use_extension;
pub mod valid_api_key_from_extension;
