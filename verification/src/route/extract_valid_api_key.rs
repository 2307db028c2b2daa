use vstd::prelude::*;
use crate::extractor::valid_api_key::ValidApiKey;

verus! {

/// The valid API key the request carried.
#[derive(Debug)]
pub struct ExtractValidApiKeyResponse {
    pub used_valid_api_key: String,
}

/// Answers with the API key that `ValidApiKey` read and validated.
pub fn extract_valid_api_key_using_extractor(key: ValidApiKey) -> (res: ExtractValidApiKeyResponse)
    ensures
        res.used_valid_api_key == key.0.api_key,
{
    ExtractValidApiKeyResponse { used_valid_api_key: key.0.api_key }
}

} // verus!
