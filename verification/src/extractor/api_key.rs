//! The API key of the header the state names.

use vstd::prelude::*;
use crate::error::{ApiError, ApiKeyError, ApiKeyErrorType, ErrorVerbosity};
use crate::headers::{RequestHeaders, header_text};
use crate::traits::StateProvider;
use crate::types::used_api_key::UsedApiKey;

verus! {

/// `e` is an API key error built at `verbosity`: missing when `missing`, with invalid
/// characters otherwise.
pub open spec fn api_key_header_error_is(e: ApiError, verbosity: ErrorVerbosity, missing: bool) -> bool {
    &&& e matches ApiError::ApiKey(k)
    &&& k.built(verbosity, k.error_type)
    &&& if missing { k.error_type is Missing } else { k.error_type is InvalidChars }
}

/// The API key a request carries.
#[derive(Clone, Debug)]
pub struct ApiKey(pub UsedApiKey);

impl ApiKey {
    /// Reads the API key from the header that the state names; the key is not validated.
    pub fn from_request_parts<S: StateProvider>(headers: &RequestHeaders, state: &S) -> (res: Result<Self, ApiError>)
        ensures
            match header_text(headers@, state.spec_api_key_header_name()) {
                None => res matches Err(e) && api_key_header_error_is(e, state.spec_error_verbosity(), true),
                Some(None) => res matches Err(e) && api_key_header_error_is(e, state.spec_error_verbosity(), false),
                Some(Some(key)) => res matches Ok(k) && k.0.api_key@ == key,
            },
    {
        let verbosity = state.error_verbosity();
        let header_name = state.api_key_header_name();
        match headers.get_text(header_name) {
            None => Err(ApiError::ApiKey(ApiKeyError::new(verbosity, ApiKeyErrorType::Missing))),
            Some(Err(err)) => Err(ApiError::ApiKey(ApiKeyError::new(verbosity, ApiKeyErrorType::InvalidChars { err }))),
            Some(Ok(api_key)) => Ok(ApiKey(UsedApiKey { api_key })),
        }
    }
}

} // verus!
