use vstd::prelude::*;
use crate::error::{ApiError, BasicAuthError, BasicAuthErrorType, ErrorVerbosity};
use crate::middleware::basic_auth::provider::BasicAuthProvider;
use crate::extractor::basic_auth::{ApiBasicAuth, basic_credentials, basic_auth_error_is};
use crate::error::opt_view;
use crate::headers::RequestHeaders;
use crate::types::used_basic_auth::UsedBasicAuth;

verus! {

/// Applies basic authentication to the requests of an inner service.
#[derive(Clone, Debug)]
pub struct BasicAuth<T, P> {
    pub inner: T,
    pub provider: P,
}

/// Marks a request as having passed through the basic auth layer.
#[derive(Clone, Copy, Debug)]
pub struct BasicAuthToken;

impl<T, P> BasicAuth<T, P> {
    pub fn new(inner: T, provider: P) -> (res: Self)
        ensures
            res.inner == inner,
            res.provider == provider,
    {
        BasicAuth { inner, provider }
    }

    /// Decides what becomes of a request: it is forwarded with its credentials when the
    /// provider accepts them; otherwise it is answered with the basic auth error (`Invalid`
    /// for credentials the provider refuses), built at `Full` verbosity.
    pub fn check_request(&self, headers: &RequestHeaders) -> (res: Result<UsedBasicAuth, ApiError>)
        where
            P: BasicAuthProvider,
        ensures
            match basic_credentials(headers@) {
                Ok(credentials) => if self.provider.spec_authenticates(credentials.0, credentials.1) {
                    res matches Ok(u) && (u.username@, opt_view(u.password)) == credentials
                } else {
                    res matches Err(ApiError::BasicAuth(e)) && e.built(ErrorVerbosity::Full, BasicAuthErrorType::Invalid)
                },
                Err(failure) => res matches Err(e) && basic_auth_error_is(e, ErrorVerbosity::Full, failure),
            },
    {
        let used = match ApiBasicAuth::from_req_parts(headers, ErrorVerbosity::Full) {
            Ok(ApiBasicAuth(used)) => used,
            Err(err) => return Err(err),
        };
        let password = match &used.password {
            Some(p) => Some(p.as_str()),
            None => None,
        };
        if self.provider.authenticate(used.username.as_str(), password) {
            Ok(used)
        } else {
            Err(ApiError::BasicAuth(BasicAuthError::new(ErrorVerbosity::Full, BasicAuthErrorType::Invalid)))
        }
    }
}

} // verus!
