use vstd::prelude::*;
use crate::extractor::optional::Optional;
use crate::extractor::valid_api_key::ValidApiKey;

verus! {

/// The valid API key the request carried, if any.
#[derive(Debug)]
pub struct OptionalExtractApiKeyResponse {
    pub used_api_key: Option<String>,
}

/// Answers with the valid API key, or with none where there was no valid key.
pub fn extract_api_key_using_optional_extractor(key: Optional<ValidApiKey>) -> (res: OptionalExtractApiKeyResponse)
    ensures
        res.used_api_key == (match key.0 {
            Some(k) => Some(k.0.api_key),
            None => None::<String>,
        }),
{
    match key.0 {
        Some(k) => OptionalExtractApiKeyResponse { used_api_key: Some(k.0.api_key) },
        None => OptionalExtractApiKeyResponse { used_api_key: None },
    }
}

} // verus!
