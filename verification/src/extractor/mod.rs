//! Extractors: what the library reads from a request, and the errors it rejects with.

pub mod api_key;
pub mod authenticated_basic_auth;
pub mod basic_auth;
pub mod bearer_token;
pub mod extractor;
pub mod json;
pub mod jwt;
pub mod optional;
pub mod path;
pub mod query;
pub mod valid_api_key;
pub mod validated;

use vstd::prelude::*;

verus! {

/// An extractor that holds the data it extracted.
pub trait Extractor {
    type Extracted;

    spec fn spec_extracted(&self) -> Self::Extracted;

    fn extracted(&self) -> (extracted: &Self::Extracted)
        ensures
            *extracted == self.spec_extracted(),
    ;

    fn extracted_mut(&mut self) -> (extracted: &mut Self::Extracted)
        ensures
            *extracted == old(self).spec_extracted(),
            final(self).spec_extracted() == *final(extracted),
    ;

    fn into_extracted(self) -> (extracted: Self::Extracted)
        ensures
            extracted == self.spec_extracted(),
    ;
}

} // verus!
