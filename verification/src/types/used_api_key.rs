use vstd::prelude::*;

verus! {

/// An API key taken from a request.
#[derive(Clone, Debug)]
pub struct UsedApiKey {
    pub api_key: String,
}

} // verus!
