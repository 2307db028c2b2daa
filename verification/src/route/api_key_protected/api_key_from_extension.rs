use vstd::prelude::*;
use crate::types::used_api_key::UsedApiKey;

verus! {

/// The API key the validating layer handed on.
#[derive(Debug)]
pub struct ApiKeyFromExtensionResponse {
    pub used_api_key: String,
}

/// Answers with the API key that the validating layer handed on.
pub fn api_key_from_extension(used_api_key: &UsedApiKey) -> (res: ApiKeyFromExtensionResponse)
    ensures
        res.used_api_key == used_api_key.api_key,
{
    ApiKeyFromExtensionResponse { used_api_key: used_api_key.api_key.clone() }
}

} // verus!
