//! Query parameters, refused with an `ApiError`.

use vstd::prelude::*;
use crate::error::{ApiError, ErrorVerbosity, QueryError, QueryRejection, query_rejection_error};
use crate::extractor::Extractor;
use crate::extractor::extractor::ExtractorFromRequestParts;

verus! {

/// Deserialized query parameters.
pub struct ApiQuery<T>(pub T);

impl<T> ApiQuery<T> {
    /// Keeps the deserialized parameters, or maps the rejection to an API error;
    /// `expected_schema` as in `QueryError::from_query_rejection`.
    pub fn from_request_parts(
        extracted: Result<T, QueryRejection>,
        verbosity: ErrorVerbosity,
        expected_schema: Result<String, String>,
    ) -> (res: Result<Self, ApiError>)
        ensures
            match extracted {
                Ok(t) => res matches Ok(q) && q.0 == t,
                Err(rejection) => res matches Err(e) && query_rejection_error(e, verbosity, rejection, expected_schema),
            },
    {
        match extracted {
            Ok(query) => Ok(ApiQuery(query)),
            Err(query_rejection) => Err(QueryError::from_query_rejection(verbosity, query_rejection, expected_schema)),
        }
    }
}

impl<T> Extractor for ApiQuery<T> {
    type Extracted = T;

    open spec fn spec_extracted(&self) -> T {
        self.0
    }

    fn extracted(&self) -> (extracted: &T) {
        &self.0
    }

    fn extracted_mut(&mut self) -> (extracted: &mut T) {
        &mut self.0
    }

    fn into_extracted(self) -> (extracted: T) {
        self.0
    }
}

impl<T> ExtractorFromRequestParts for ApiQuery<T> {
    type Extracted = T;

    open spec fn spec_extracted(&self) -> T {
        self.0
    }

    fn extracted(&self) -> (extracted: &T) {
        &self.0
    }
}

} // verus!
