//! Basic auth credentials of the `Authorization` header.

use vstd::prelude::*;
use vstd::string::*;
use vstd::utf8::*;
use crate::error::{ApiError, BasicAuthError, BasicAuthErrorType, ErrorVerbosity, opt_view};
use crate::foreign::{Base64DecodeError, base64_standard_decoded, base64_standard_decode, string_from_utf8};
use crate::headers::{RequestHeaders, header_text};
use crate::text::{split_first, split_once_char, law_split_first_of_join, law_split_first_without};
use crate::traits::StateProvider;
use crate::types::used_basic_auth::UsedBasicAuth;

verus! {

/// Why no basic auth credentials could be read.
#[derive(Clone, Copy, Debug, PartialEq, Eq, Structural)]
pub enum BasicAuthFailure {
    AuthMissing,
    AuthInvalidChars,
    Decode(Base64DecodeError),
    AuthInvalidUTF8,
    InvalidBasic,
}

/// The encoded credentials of an authorization value of the `Basic` scheme.
pub open spec fn basic_from_authorization(authorization: Seq<char>) -> Option<Seq<char>> {
    match split_first(authorization, ' ') {
        Some(parts) => if parts.0 == "Basic"@ { Some(parts.1) } else { None },
        None => None,
    }
}

/// The text that encoded credentials decode to: base64 with the standard alphabet, then
/// UTF-8.
pub open spec fn decoded_credentials(encoded: Seq<char>) -> Result<Seq<char>, BasicAuthFailure> {
    match base64_standard_decoded(encode_utf8(encoded)) {
        Err(e) => Err(BasicAuthFailure::Decode(e)),
        Ok(bytes) => if valid_utf8(bytes) {
            Ok(decode_utf8(bytes))
        } else {
            Err(BasicAuthFailure::AuthInvalidUTF8)
        },
    }
}

/// Username and password of decoded credentials: split at the first `:`; without one, the
/// whole text is the username and there is no password.
pub open spec fn split_credentials(credentials: Seq<char>) -> (Seq<char>, Option<Seq<char>>) {
    match split_first(credentials, ':') {
        Some(parts) => (parts.0, Some(parts.1)),
        None => (credentials, None),
    }
}

/// The basic auth credentials of a request's headers, or why there are none.
pub open spec fn basic_credentials(headers: Seq<(Seq<char>, Seq<u8>)>) -> Result<(Seq<char>, Option<Seq<char>>), BasicAuthFailure> {
    match header_text(headers, "authorization"@) {
        None => Err(BasicAuthFailure::AuthMissing),
        Some(None) => Err(BasicAuthFailure::AuthInvalidChars),
        Some(Some(authorization)) => match basic_from_authorization(authorization) {
            None => Err(BasicAuthFailure::InvalidBasic),
            Some(encoded) => match decoded_credentials(encoded) {
                Ok(credentials) => Ok(split_credentials(credentials)),
                Err(failure) => Err(failure),
            },
        },
    }
}

/// `e` is the basic auth error for `failure`, built at `verbosity`.
pub open spec fn basic_auth_error_is(e: ApiError, verbosity: ErrorVerbosity, failure: BasicAuthFailure) -> bool {
    &&& e matches ApiError::BasicAuth(b)
    &&& b.built(verbosity, b.error_type)
    &&& match failure {
        BasicAuthFailure::AuthMissing => b.error_type is AuthMissing,
        BasicAuthFailure::AuthInvalidChars => b.error_type is AuthInvalidChars,
        BasicAuthFailure::Decode(d) => b.error_type == BasicAuthErrorType::Decode { err: d },
        BasicAuthFailure::AuthInvalidUTF8 => b.error_type is AuthInvalidUTF8,
        BasicAuthFailure::InvalidBasic => b.error_type is InvalidBasic,
    }
}

/// An authorization value written as `Basic <encoded>` yields `<encoded>`.
pub proof fn law_basic_roundtrip(encoded: Seq<char>)
    ensures
        basic_from_authorization("Basic "@ + encoded) == Some(encoded),
{
    reveal_strlit("Basic ");
    reveal_strlit("Basic");
    assert("Basic "@ + encoded =~= "Basic"@ + seq![' '] + encoded);
    assert(!("Basic"@).contains(' ')) by {
        if ("Basic"@).contains(' ') {
            let k = choose|k: int| 0 <= k < ("Basic"@).len() && ("Basic"@)[k] == ' ';
        }
    }
    law_split_first_of_join("Basic"@, encoded, ' ');
}

/// Credentials written as `username:password` yield that username and password, when the
/// username holds no `:`; credentials without a `:` are a username alone.
pub proof fn law_credentials_roundtrip(username: Seq<char>, password: Seq<char>)
    ensures
        !username.contains(':') ==> split_credentials(username + seq![':'] + password) == (username, Some(password)),
        !username.contains(':') ==> split_credentials(username) == (username, None::<Seq<char>>),
{
    if !username.contains(':') {
        law_split_first_of_join(username, password, ':');
        law_split_first_without(username, ':');
    }
}

/// The basic auth credentials a request carries.
#[derive(Clone)]
pub struct ApiBasicAuth(pub UsedBasicAuth);

impl ApiBasicAuth {
    /// The `Authorization` header as text.
    pub fn extract_authorization(headers: &RequestHeaders, verbosity: ErrorVerbosity) -> (res: Result<String, ApiError>)
        ensures
            match header_text(headers@, "authorization"@) {
                None => res matches Err(e) && basic_auth_error_is(e, verbosity, BasicAuthFailure::AuthMissing),
                Some(None) => res matches Err(e) && basic_auth_error_is(e, verbosity, BasicAuthFailure::AuthInvalidChars),
                Some(Some(text)) => res matches Ok(s) && s@ == text,
            },
    {
        match headers.get_text("authorization") {
            None => Err(ApiError::BasicAuth(BasicAuthError::new(verbosity, BasicAuthErrorType::AuthMissing))),
            Some(Err(err)) => Err(ApiError::BasicAuth(BasicAuthError::new(verbosity, BasicAuthErrorType::AuthInvalidChars { err }))),
            Some(Ok(text)) => Ok(text),
        }
    }

    /// The encoded credentials of a `Basic` authorization value; what follows `"Basic "`.
    pub fn extract_encoded_basic(authorization: &str, verbosity: ErrorVerbosity) -> (res: Result<String, ApiError>)
        ensures
            match basic_from_authorization(authorization@) {
                Some(encoded) => res matches Ok(s) && s@ == encoded,
                None => res matches Err(e) && basic_auth_error_is(e, verbosity, BasicAuthFailure::InvalidBasic),
            },
            res matches Ok(s) ==> authorization@ == "Basic "@ + s@,
    {
        match split_once_char(authorization, ' ') {
            Some((scheme, encoded)) => {
                if scheme == String::from_str("Basic") {
                    proof {
                        reveal_strlit("Basic ");
                        reveal_strlit("Basic");
                        assert("Basic "@ =~= "Basic"@ + seq![' ']);
                        assert(authorization@ =~= "Basic "@ + encoded@);
                    }
                    Ok(encoded)
                } else {
                    Err(ApiError::BasicAuth(BasicAuthError::new(verbosity, BasicAuthErrorType::InvalidBasic)))
                }
            },
            None => Err(ApiError::BasicAuth(BasicAuthError::new(verbosity, BasicAuthErrorType::InvalidBasic))),
        }
    }

    /// Decodes the credentials: base64, then UTF-8.
    pub fn decode(encoded_basic: &str, verbosity: ErrorVerbosity) -> (res: Result<String, ApiError>)
        ensures
            match decoded_credentials(encoded_basic@) {
                Ok(text) => res matches Ok(s) && s@ == text,
                Err(failure) => res matches Err(e) && basic_auth_error_is(e, verbosity, failure),
            },
    {
        let decoded = match base64_standard_decode(encoded_basic.as_bytes()) {
            Ok(bytes) => bytes,
            Err(err) => {
                return Err(ApiError::BasicAuth(BasicAuthError::new(verbosity, BasicAuthErrorType::Decode { err })));
            },
        };
        match string_from_utf8(decoded) {
            Ok(text) => Ok(text),
            Err(err) => Err(ApiError::BasicAuth(BasicAuthError::new(verbosity, BasicAuthErrorType::AuthInvalidUTF8 { err }))),
        }
    }

    /// Splits decoded credentials into a username and an optional password at the first `:`.
    pub fn split(basic_auth: String) -> (res: (String, Option<String>))
        ensures
            (res.0@, opt_view(res.1)) == split_credentials(basic_auth@),
            match res.1 {
                Some(password) => basic_auth@ == res.0@ + seq![':'] + password@ && !res.0@.contains(':'),
                None => res.0@ == basic_auth@ && !basic_auth@.contains(':'),
            },
    {
        match split_once_char(basic_auth.as_str(), ':') {
            Some((username, password)) => (username, Some(password)),
            None => (basic_auth, None),
        }
    }

    /// Reads the basic auth credentials of a request.
    pub fn from_req_parts(headers: &RequestHeaders, verbosity: ErrorVerbosity) -> (res: Result<Self, ApiError>)
        ensures
            match basic_credentials(headers@) {
                Ok(credentials) => res matches Ok(b) && (b.0.username@, opt_view(b.0.password)) == credentials,
                Err(failure) => res matches Err(e) && basic_auth_error_is(e, verbosity, failure),
            },
    {
        let authorization = Self::extract_authorization(headers, verbosity)?;
        let encoded_basic = Self::extract_encoded_basic(authorization.as_str(), verbosity)?;
        let decoded = Self::decode(encoded_basic.as_str(), verbosity)?;
        let (username, password) = Self::split(decoded);
        Ok(ApiBasicAuth(UsedBasicAuth { username, password }))
    }

    /// Reads the basic auth credentials of a request, with the state's error verbosity.
    pub fn from_request_parts<S: StateProvider>(headers: &RequestHeaders, state: &S) -> (res: Result<Self, ApiError>)
        ensures
            match basic_credentials(headers@) {
                Ok(credentials) => res matches Ok(b) && (b.0.username@, opt_view(b.0.password)) == credentials,
                Err(failure) => res matches Err(e) && basic_auth_error_is(e, state.spec_error_verbosity(), failure),
            },
    {
        let verbosity = state.error_verbosity();
        Self::from_req_parts(headers, verbosity)
    }
}

} // verus!
