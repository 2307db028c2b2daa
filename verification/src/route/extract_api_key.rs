use vstd::prelude::*;
use crate::extractor::api_key::ApiKey;

verus! {

/// The API key the request carried.
#[derive(Debug)]
pub struct ExtractApiKeyResponse {
    pub used_api_key: String,
}

/// Answers with the API key that `ApiKey` read; the key is not validated.
pub fn extract_api_key_using_extractor(key: ApiKey) -> (res: ExtractApiKeyResponse)
    ensures
        res.used_api_key == key.0.api_key,
{
    ExtractApiKeyResponse { used_api_key: key.0.api_key }
}

} // verus!
