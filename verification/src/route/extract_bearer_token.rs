use vstd::prelude::*;
use crate::extractor::bearer_token::ApiBearerToken;

verus! {

/// The bearer token the request carried.
#[derive(Debug)]
pub struct ExtractBearerTokenResponse {
    pub used_token: String,
}

/// Answers with the bearer token that `ApiBearerToken` read; the token is not validated.
pub fn extract_bearer_token_using_extractor(token: ApiBearerToken) -> (res: ExtractBearerTokenResponse)
    ensures
        res.used_token == token.0.value,
{
    ExtractBearerTokenResponse { used_token: token.0.value }
}

} // verus!
