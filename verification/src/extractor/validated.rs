//! Extracted data that passed validation.

use vstd::prelude::*;
use crate::error::{ApiError, ErrorVerbosity, ValidationError, content_for, opt_view};
use crate::extractor::Extractor;

verus! {

/// The outcome of another extractor whose data passed validation.
pub struct Validated<X>(pub X);

impl<X: Extractor> Validated<X> {
    /// Keeps the inner extractor if its data is valid; otherwise refuses with a validation
    /// error carrying the text of the validation errors (at `Full` verbosity).
    /// `validation` is the outcome of validating `inner.extracted()`.
    pub fn extract(inner: X, validation: Result<(), String>, verbosity: ErrorVerbosity) -> (res: Result<Self, ApiError>)
        ensures
            match validation {
                Ok(()) => res matches Ok(v) && v.0 == inner,
                Err(errors) => res matches Err(ApiError::Validation(e)) && e.verbosity == verbosity
                    && opt_view(e.reason) == content_for(verbosity, errors@),
            },
    {
        match validation {
            Ok(()) => Ok(Validated(inner)),
            Err(errors) => Err(ApiError::Validation(ValidationError::from_validation_errors(verbosity, errors))),
        }
    }
}

} // verus!
