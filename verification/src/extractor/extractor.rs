//! Extractors that give access to what they extracted, by the part of the request they read.

use vstd::prelude::*;

verus! {

/// An extractor of the request's parts (headers, query, path) that holds what it extracted.
pub trait ExtractorFromRequestParts {
    type Extracted;

    spec fn spec_extracted(&self) -> Self::Extracted;

    fn extracted(&self) -> (extracted: &Self::Extracted)
        ensures
            *extracted == self.spec_extracted(),
    ;
}

/// An extractor of the whole request (its body) that holds what it extracted.
pub trait ExtractorFromRequest {
    type Extracted;

    spec fn spec_extracted(&self) -> Self::Extracted;

    fn extracted(&self) -> (extracted: &Self::Extracted)
        ensures
            *extracted == self.spec_extracted(),
    ;
}

} // verus!
