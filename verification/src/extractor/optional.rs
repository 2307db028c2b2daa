//! An extractor that never fails.

use vstd::prelude::*;

verus! {

/// The outcome of another extractor: `None` where that one failed.
pub struct Optional<X>(pub Option<X>);

impl<X> Optional<X> {
    /// Keeps the extracted value, drops the rejection.
    pub fn from_request_parts<E>(inner: Result<X, E>) -> (res: Self)
        ensures
            res.0 == (match inner {
                Ok(x) => Some(x),
                Err(_) => None::<X>,
            }),
    {
        match inner {
            Ok(x) => Optional(Some(x)),
            Err(_) => Optional(None),
        }
    }
}

} // verus!
