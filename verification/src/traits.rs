//! What extractors ask of the application state.

use vstd::prelude::*;
use crate::error::{ErrorVerbosity, opt_view};

verus! {

/// The view of an optional string slice.
pub open spec fn opt_str_view(s: Option<&str>) -> Option<Seq<char>> {
    match s {
        Some(s) => Some(s@),
        None => None,
    }
}

/// Tells whether a JWT validation error means that the token expired.
pub trait JwtValidationErrorProvider {
    /// Whether the error means that the token expired.
    spec fn spec_is_expired(&self) -> bool;

    fn is_expired(&self) -> (expired: bool)
        ensures
            expired == self.spec_is_expired(),
    ;
}

/// The settings and credential checks that extractors rely on.
pub trait StateProvider {
    /// The verbosity errors are built with.
    spec fn spec_error_verbosity(&self) -> ErrorVerbosity;

    /// The name of the header that carries the API key.
    spec fn spec_api_key_header_name(&self) -> Seq<char>;

    /// Whether an API key is accepted.
    spec fn spec_api_key_valid(&self, key: Seq<char>) -> bool;

    /// Whether basic auth credentials are accepted.
    spec fn spec_basic_auth_valid(&self, username: Seq<char>, password: Option<Seq<char>>) -> bool;

    fn error_verbosity(&self) -> (verbosity: ErrorVerbosity)
        ensures
            verbosity == self.spec_error_verbosity(),
    ;

    fn api_key_header_name(&self) -> (name: &str)
        ensures
            name@ == self.spec_api_key_header_name(),
    ;

    fn api_key_validate(&self, key: &str) -> (valid: bool)
        ensures
            valid == self.spec_api_key_valid(key@),
    ;

    fn basic_auth_authenticate(&self, username: &str, password: Option<&str>) -> (valid: bool)
        ensures
            valid == self.spec_basic_auth_valid(username@, opt_str_view(password)),
    ;
}

} // verus!
