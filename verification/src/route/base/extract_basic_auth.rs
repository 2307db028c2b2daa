use vstd::prelude::*;
use crate::extractor::basic_auth::ApiBasicAuth;

verus! {

/// The basic auth credentials the request carried.
#[derive(Debug)]
pub struct ExtractBasicAuthResponse {
    pub used_username: String,
    pub used_password: Option<String>,
}

/// Answers with the credentials that `ApiBasicAuth` read; they are not authenticated.
pub fn extract_basic_auth_using_extractor(basic_auth: ApiBasicAuth) -> (res: ExtractBasicAuthResponse)
    ensures
        res.used_username == basic_auth.0.username,
        res.used_password == basic_auth.0.password,
{
    ExtractBasicAuthResponse { used_username: basic_auth.0.username, used_password: basic_auth.0.password }
}

} // verus!
