//! Basic auth credentials that the state accepts.

use vstd::prelude::*;
use vstd::string::*;
use crate::error::{ApiError, BasicAuthError, BasicAuthErrorType, InternalServerError, is_internal_error, opt_view};
use crate::extractor::basic_auth::{ApiBasicAuth, basic_credentials, basic_auth_error_is};
use crate::headers::RequestHeaders;
use crate::traits::StateProvider;
use crate::types::used_basic_auth::UsedBasicAuth;

verus! {

/// Basic auth credentials that were read from the request and accepted by the state.
#[derive(Clone)]
pub struct ApiAuthenticatedBasicAuth(pub UsedBasicAuth);

/// The text of the internal error for a request that did not pass the basic auth layer.
pub open spec fn missing_layer_text() -> Seq<char> {
    "The request has not been processed by the basic auth middleware"@
}

impl ApiAuthenticatedBasicAuth {
    /// Reads the credentials and authenticates them: credentials the state does not accept
    /// are refused as `Invalid`. `passed_layer` tells whether the request carries the mark
    /// of the basic auth layer (`BasicAuthToken`); a request without it is answered with an
    /// internal server error, whatever its credentials.
    pub fn from_request_parts<S: StateProvider>(
        headers: &RequestHeaders,
        passed_layer: bool,
        state: &S,
    ) -> (res: Result<Self, ApiError>)
        ensures
            !passed_layer ==> (res matches Err(e) && is_internal_error(e, state.spec_error_verbosity(), missing_layer_text())),
            passed_layer ==> match basic_credentials(headers@) {
                Err(failure) => res matches Err(e) && basic_auth_error_is(e, state.spec_error_verbosity(), failure),
                Ok(credentials) => if state.spec_basic_auth_valid(credentials.0, credentials.1) {
                    res matches Ok(b) && (b.0.username@, opt_view(b.0.password)) == credentials
                } else {
                    res matches Err(ApiError::BasicAuth(e)) && e.built(state.spec_error_verbosity(), BasicAuthErrorType::Invalid)
                },
            },
    {
        let verbosity = state.error_verbosity();
        if !passed_layer {
            proof { reveal_strlit("The request has not been processed by the basic auth middleware"); }
            let text = String::from_str("The request has not been processed by the basic auth middleware");
            return Err(ApiError::InternalServerError(InternalServerError::from_generic_error(verbosity, text)));
        }
        let ApiBasicAuth(used) = ApiBasicAuth::from_request_parts(headers, state)?;
        let password = match &used.password {
            Some(p) => Some(p.as_str()),
            None => None,
        };
        if state.basic_auth_authenticate(used.username.as_str(), password) {
            Ok(ApiAuthenticatedBasicAuth(used))
        } else {
            Err(ApiError::BasicAuth(BasicAuthError::new(verbosity, BasicAuthErrorType::Invalid)))
        }
    }
}

} // verus!
