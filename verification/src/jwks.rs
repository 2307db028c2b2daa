//! When a cached JWK set is fetched again.

use vstd::prelude::*;

verus! {

/// How long a fetched JWK set is used before it is fetched again.
#[derive(Clone, Copy, Debug)]
pub struct JwkRefreshPolicy {
    pub time_to_live_in_seconds: u64,
}

impl JwkRefreshPolicy {
    pub fn new(time_to_live_in_seconds: u64) -> (res: Self)
        ensures
            res.time_to_live_in_seconds == time_to_live_in_seconds,
    {
        JwkRefreshPolicy { time_to_live_in_seconds }
    }

    /// A set fetched `elapsed_seconds` ago (whole seconds) is fetched again once more than
    /// the time to live has passed.
    pub fn refresh_due(&self, elapsed_seconds: u64) -> (due: bool)
        ensures
            due == (elapsed_seconds > self.time_to_live_in_seconds),
    {
        elapsed_seconds > self.time_to_live_in_seconds
    }
}

} // verus!
