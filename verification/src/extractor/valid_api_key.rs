//! An API key that the state accepts.

use vstd::prelude::*;
use crate::error::{ApiError, ApiKeyError, ApiKeyErrorType};
use crate::extractor::api_key::{ApiKey, api_key_header_error_is};
use crate::headers::{RequestHeaders, header_text};
use crate::traits::StateProvider;
use crate::types::used_api_key::UsedApiKey;

verus! {

/// An API key that was read from the request and accepted by the state.
#[derive(Clone, Debug)]
pub struct ValidApiKey(pub UsedApiKey);

impl ValidApiKey {
    /// Reads the API key and validates it: a key the state does not accept is refused as
    /// `Invalid`.
    pub fn from_request_parts<S: StateProvider>(headers: &RequestHeaders, state: &S) -> (res: Result<Self, ApiError>)
        ensures
            match header_text(headers@, state.spec_api_key_header_name()) {
                None => res matches Err(e) && api_key_header_error_is(e, state.spec_error_verbosity(), true),
                Some(None) => res matches Err(e) && api_key_header_error_is(e, state.spec_error_verbosity(), false),
                Some(Some(key)) => if state.spec_api_key_valid(key) {
                    res matches Ok(k) && k.0.api_key@ == key
                } else {
                    res matches Err(ApiError::ApiKey(e)) && e.built(state.spec_error_verbosity(), ApiKeyErrorType::Invalid)
                },
            },
    {
        let verbosity = state.error_verbosity();
        let ApiKey(used) = ApiKey::from_request_parts(headers, state)?;
        if state.api_key_validate(used.api_key.as_str()) {
            Ok(ValidApiKey(used))
        } else {
            Err(ApiError::ApiKey(ApiKeyError::new(verbosity, ApiKeyErrorType::Invalid)))
        }
    }
}

} // verus!
