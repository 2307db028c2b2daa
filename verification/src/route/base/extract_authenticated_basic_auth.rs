use vstd::prelude::*;
use crate::extractor::authenticated_basic_auth::ApiAuthenticatedBasicAuth;

verus! {

/// The authenticated basic auth credentials the request carried.
#[derive(Debug)]
pub struct ExtractAuthenticatedBasicAuthResponse {
    pub used_username: String,
    pub used_password: Option<String>,
}

/// Answers with the credentials that `ApiAuthenticatedBasicAuth` read and authenticated.
pub fn extract_authenticated_basic_auth_using_extractor(
    basic_auth: ApiAuthenticatedBasicAuth,
) -> (res: ExtractAuthenticatedBasicAuthResponse)
    ensures
        res.used_username == basic_auth.0.username,
        res.used_password == basic_auth.0.password,
{
    ExtractAuthenticatedBasicAuthResponse {
        used_username: basic_auth.0.username,
        used_password: basic_auth.0.password,
    }
}

} // verus!
