use vstd::prelude::*;
use crate::extractor::valid_api_key::ValidApiKey;

verus! {

/// The valid API key the validating layer handed on.
#[derive(Debug)]
pub struct ApiKeyFromExtensionResponse {
    pub used_api_key: String,
}

/// Answers with the valid API key that the validating layer handed on.
pub fn valid_api_key_from_extension(valid_api_key: ValidApiKey) -> (res: ApiKeyFromExtensionResponse)
    ensures
        res.used_api_key == valid_api_key.0.api_key,
{
    ApiKeyFromExtensionResponse { used_api_key: valid_api_key.0.api_key }
}

} // verus!
