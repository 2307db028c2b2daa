//! The bearer token of the `Authorization` header.

use vstd::prelude::*;
use vstd::string::*;
use crate::error::{ApiError, BearerError, BearerErrorType, ErrorVerbosity};
use crate::headers::{RequestHeaders, header_text};
use crate::text::{split_first, split_once_char, law_split_first_of_join};
use crate::traits::StateProvider;
use crate::types::used_bearer_token::UsedBearerToken;

verus! {

/// Why no bearer token could be read.
#[derive(Clone, Copy, Debug, PartialEq, Eq, Structural)]
pub enum BearerFailure {
    AuthMissing,
    AuthInvalidChars,
    InvalidBearer,
}

/// The token of an authorization value of the `Bearer` scheme: the text after the first
/// space, when the text before it is `Bearer`.
pub open spec fn bearer_from_authorization(authorization: Seq<char>) -> Option<Seq<char>> {
    match split_first(authorization, ' ') {
        Some(parts) => if parts.0 == "Bearer"@ { Some(parts.1) } else { None },
        None => None,
    }
}

/// The bearer token of a request's headers, or why there is none.
pub open spec fn bearer_token(headers: Seq<(Seq<char>, Seq<u8>)>) -> Result<Seq<char>, BearerFailure> {
    match header_text(headers, "authorization"@) {
        None => Err(BearerFailure::AuthMissing),
        Some(None) => Err(BearerFailure::AuthInvalidChars),
        Some(Some(authorization)) => match bearer_from_authorization(authorization) {
            Some(token) => Ok(token),
            None => Err(BearerFailure::InvalidBearer),
        },
    }
}

/// `e` is the bearer error for `failure`, built at `verbosity`.
pub open spec fn bearer_error_is(e: ApiError, verbosity: ErrorVerbosity, failure: BearerFailure) -> bool {
    &&& e matches ApiError::Bearer(b)
    &&& b.built(verbosity, b.error_type)
    &&& match failure {
        BearerFailure::AuthMissing => b.error_type is AuthMissing,
        BearerFailure::AuthInvalidChars => b.error_type is AuthInvalidChars,
        BearerFailure::InvalidBearer => b.error_type is InvalidBearer,
    }
}

/// An authorization value written as `Bearer <token>` yields `<token>`.
pub proof fn law_bearer_roundtrip(token: Seq<char>)
    ensures
        bearer_from_authorization("Bearer "@ + token) == Some(token),
{
    reveal_strlit("Bearer ");
    reveal_strlit("Bearer");
    assert("Bearer "@ + token =~= "Bearer"@ + seq![' '] + token);
    assert(!("Bearer"@).contains(' ')) by {
        if ("Bearer"@).contains(' ') {
            let k = choose|k: int| 0 <= k < ("Bearer"@).len() && ("Bearer"@)[k] == ' ';
        }
    }
    law_split_first_of_join("Bearer"@, token, ' ');
}

/// The bearer token a request carries.
#[derive(Clone, Debug)]
pub struct ApiBearerToken(pub UsedBearerToken);

impl ApiBearerToken {
    /// The `Authorization` header as text.
    pub fn extract_authorization(headers: &RequestHeaders, verbosity: ErrorVerbosity) -> (res: Result<String, ApiError>)
        ensures
            match header_text(headers@, "authorization"@) {
                None => res matches Err(e) && bearer_error_is(e, verbosity, BearerFailure::AuthMissing),
                Some(None) => res matches Err(e) && bearer_error_is(e, verbosity, BearerFailure::AuthInvalidChars),
                Some(Some(text)) => res matches Ok(s) && s@ == text,
            },
    {
        match headers.get_text("authorization") {
            None => Err(ApiError::Bearer(BearerError::new(verbosity, BearerErrorType::AuthMissing))),
            Some(Err(err)) => Err(ApiError::Bearer(BearerError::new(verbosity, BearerErrorType::AuthInvalidChars { err }))),
            Some(Ok(text)) => Ok(text),
        }
    }

    /// The token of a `Bearer` authorization value; what follows `"Bearer "`.
    pub fn extract_bearer_token(authorization: &str, verbosity: ErrorVerbosity) -> (res: Result<String, ApiError>)
        ensures
            match bearer_from_authorization(authorization@) {
                Some(token) => res matches Ok(s) && s@ == token,
                None => res matches Err(e) && bearer_error_is(e, verbosity, BearerFailure::InvalidBearer),
            },
            res matches Ok(s) ==> authorization@ == "Bearer "@ + s@,
    {
        match split_once_char(authorization, ' ') {
            Some((scheme, token)) => {
                if scheme == String::from_str("Bearer") {
                    proof {
                        reveal_strlit("Bearer ");
                        reveal_strlit("Bearer");
                        assert("Bearer "@ =~= "Bearer"@ + seq![' ']);
                        assert(authorization@ =~= "Bearer "@ + token@);
                    }
                    Ok(token)
                } else {
                    Err(ApiError::Bearer(BearerError::new(verbosity, BearerErrorType::InvalidBearer)))
                }
            },
            None => Err(ApiError::Bearer(BearerError::new(verbosity, BearerErrorType::InvalidBearer))),
        }
    }

    /// Reads the bearer token of a request.
    pub fn from_request_parts<S: StateProvider>(headers: &RequestHeaders, state: &S) -> (res: Result<Self, ApiError>)
        ensures
            match bearer_token(headers@) {
                Ok(token) => res matches Ok(b) && b.0.value@ == token,
                Err(failure) => res matches Err(e) && bearer_error_is(e, state.spec_error_verbosity(), failure),
            },
    {
        let verbosity = state.error_verbosity();
        let authorization = Self::extract_authorization(headers, verbosity)?;
        let value = Self::extract_bearer_token(authorization.as_str(), verbosity)?;
        Ok(ApiBearerToken(UsedBearerToken { value }))
    }
}

} // verus!
