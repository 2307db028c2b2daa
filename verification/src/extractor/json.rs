//! A JSON body, refused with an `ApiError`.

use vstd::prelude::*;
use crate::error::{
    ApiError, ErrorVerbosity, InternalServerError, JsonBodyError, JsonRejection, is_internal_error,
    json_rejection_error,
};
use crate::extractor::Extractor;
use crate::extractor::extractor::ExtractorFromRequest;

verus! {

/// A deserialized JSON body.
pub struct ApiJson<T>(pub T);

/// The API error that the JSON extractor answers a refused body with: an internal error for a
/// rejection other than a refused body, and, whatever the verbosity, for a schema that could
/// not be produced; otherwise the JSON body error of the rejection.
pub open spec fn json_extractor_error(
    res: ApiError,
    verbosity: ErrorVerbosity,
    rejection: JsonRejection,
    expected_schema: Result<String, String>,
) -> bool {
    match rejection {
        JsonRejection::Other { error_text } => is_internal_error(res, verbosity, error_text@),
        _ => match expected_schema {
            Err(text) => is_internal_error(res, verbosity, text@),
            Ok(_) => json_rejection_error(res, verbosity, rejection, expected_schema),
        },
    }
}

impl<T> ApiJson<T> {
    /// Keeps the deserialized body, or maps the rejection to an API error. `expected_schema`
    /// is the YAML text of the expected type's JSON schema, or the text of the failure to
    /// produce it; a refused body needs it at every verbosity.
    pub fn from_request(
        extracted: Result<T, JsonRejection>,
        verbosity: ErrorVerbosity,
        expected_schema: Result<String, String>,
    ) -> (res: Result<Self, ApiError>)
        ensures
            match extracted {
                Ok(t) => res matches Ok(j) && j.0 == t,
                Err(rejection) => res matches Err(e) && json_extractor_error(e, verbosity, rejection, expected_schema),
            },
    {
        match extracted {
            Ok(json) => Ok(ApiJson(json)),
            Err(json_rejection) => {
                let is_other = match &json_rejection {
                    JsonRejection::Other { .. } => true,
                    _ => false,
                };
                let expected_schema = if is_other {
                    expected_schema
                } else {
                    match expected_schema {
                        Ok(schema) => Ok(schema),
                        Err(text) => {
                            return Err(ApiError::InternalServerError(InternalServerError::from_generic_error(verbosity, text)));
                        },
                    }
                };
                Err(JsonBodyError::from_json_rejection(verbosity, json_rejection, expected_schema))
            },
        }
    }
}

impl<T> Extractor for ApiJson<T> {
    type Extracted = T;

    open spec fn spec_extracted(&self) -> T {
        self.0
    }

    fn extracted(&self) -> (extracted: &T) {
        &self.0
    }

    fn extracted_mut(&mut self) -> (extracted: &mut T) {
        &mut self.0
    }

    fn into_extracted(self) -> (extracted: T) {
        self.0
    }
}

impl<T> ExtractorFromRequest for ApiJson<T> {
    type Extracted = T;

    open spec fn spec_extracted(&self) -> T {
        self.0
    }

    fn extracted(&self) -> (extracted: &T) {
        &self.0
    }
}

} // verus!
