use vstd::prelude::*;

verus! {

/// A bearer token taken from a request.
#[derive(Clone, Debug)]
pub struct UsedBearerToken {
    pub value: String,
}

} // verus!
