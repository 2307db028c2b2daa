use vstd::prelude::*;
use crate::error::{ApiError, InternalServerError, is_internal_error};
use crate::traits::StateProvider;

verus! {

/// Answers a failed server-side operation (the text of its failure) with an internal
/// server error, and a successful one with nothing.
pub fn internal_server_error<S: StateProvider>(state: &S, outcome: Result<(), String>) -> (res: Result<(), ApiError>)
    ensures
        match outcome {
            Ok(()) => res is Ok,
            Err(text) => res matches Err(e) && is_internal_error(e, state.spec_error_verbosity(), text@),
        },
{
    match outcome {
        Ok(()) => Ok(()),
        Err(text) => Err(ApiError::InternalServerError(InternalServerError::from_generic_error(state.error_verbosity(), text))),
    }
}

/// The default API error: an internal server error at the default verbosity.
pub fn default_api_error() -> (res: ApiError)
    ensures
        res matches ApiError::InternalServerError(e) && e.verbosity == crate::error::ErrorVerbosity::StatusCode
            && e.error is None,
{
    ApiError::default()
}

} // verus!
