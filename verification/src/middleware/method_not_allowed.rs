use vstd::prelude::*;
use crate::error::{ApiError, MethodNotAllowedError};
use crate::traits::StateProvider;

verus! {

/// Maps the router's own 405 reply to an API error; any other reply passes unchanged.
pub fn method_not_allowed<S: StateProvider>(state: &S, status: u16) -> (res: Result<(), ApiError>)
    ensures
        status == 405 <==> res is Err,
        res matches Err(e) ==> e matches ApiError::MethodNotAllowed(m) && m.verbosity == state.spec_error_verbosity(),
{
    if status == 405 {
        Err(ApiError::MethodNotAllowed(MethodNotAllowedError::new(state.error_verbosity())))
    } else {
        Ok(())
    }
}

} // verus!
