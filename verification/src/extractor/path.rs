//! Path parameters, refused with an `ApiError`.

use vstd::prelude::*;
use crate::error::{ApiError, ErrorVerbosity, PathError, PathRejection, path_rejection_error};
use crate::extractor::Extractor;

verus! {

/// Deserialized path parameters.
pub struct ApiPath<T>(pub T);

impl<T> ApiPath<T> {
    /// Keeps the deserialized parameters, or maps the rejection to an API error.
    pub fn from_request_parts(
        extracted: Result<T, PathRejection>,
        verbosity: ErrorVerbosity,
    ) -> (res: Result<Self, ApiError>)
        ensures
            match extracted {
                Ok(t) => res matches Ok(p) && p.0 == t,
                Err(rejection) => res matches Err(e) && path_rejection_error(e, verbosity, rejection),
            },
    {
        match extracted {
            Ok(path) => Ok(ApiPath(path)),
            Err(path_rejection) => Err(PathError::from_path_rejection(verbosity, path_rejection)),
        }
    }
}

impl<T> Extractor for ApiPath<T> {
    type Extracted = T;

    open spec fn spec_extracted(&self) -> T {
        self.0
    }

    fn extracted(&self) -> (extracted: &T) {
        &self.0
    }

    fn extracted_mut(&mut self) -> (extracted: &mut T) {
        &mut self.0
    }

    fn into_extracted(self) -> (extracted: T) {
        self.0
    }
}

} // verus!
