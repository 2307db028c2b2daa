use vstd::prelude::*;
use crate::error::{ApiError, NotFoundError};
use crate::traits::StateProvider;

verus! {

/// The error for a request that no route matches.
pub fn not_found<S: StateProvider>(state: &S) -> (res: ApiError)
    ensures
        res matches ApiError::NotFound(e) && e.verbosity == state.spec_error_verbosity(),
{
    ApiError::NotFound(NotFoundError::new(state.error_verbosity()))
}

} // verus!
