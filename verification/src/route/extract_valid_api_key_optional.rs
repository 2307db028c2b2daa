use vstd::prelude::*;
use crate::extractor::optional::Optional;
use crate::extractor::valid_api_key::ValidApiKey;

verus! {

/// The valid API key the request carried, if any.
#[derive(Debug)]
pub struct OptionalExtractValidApiKeyResponse {
    pub used_valid_api_key: Option<String>,
}

/// Answers with the valid API key; without one the request is not refused.
pub fn extract_valid_api_key_using_optional_extractor(key: Optional<ValidApiKey>) -> (res: OptionalExtractValidApiKeyResponse)
    ensures
        res.used_valid_api_key == (match key.0 {
            Some(k) => Some(k.0.api_key),
            None => None::<String>,
        }),
{
    match key.0 {
        Some(k) => OptionalExtractValidApiKeyResponse { used_valid_api_key: Some(k.0.api_key) },
        None => OptionalExtractValidApiKeyResponse { used_valid_api_key: None },
    }
}

} // verus!
