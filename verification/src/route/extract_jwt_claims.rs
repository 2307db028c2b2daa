use vstd::prelude::*;
use crate::extractor::jwt::ApiJwt;

verus! {

/// The claims of the validated JWT the request carried.
#[derive(Debug)]
pub struct ExtractClaimsResponse {
    pub claims: serde_json::Value,
}

/// Answers with the claims that `ApiJwt` validated.
pub fn extract_valid_jwt_claims_using_extractor(jwt: ApiJwt<serde_json::Value>) -> (res: ExtractClaimsResponse)
    ensures
        res.claims == jwt.0,
{
    ExtractClaimsResponse { claims: jwt.0 }
}

} // verus!
