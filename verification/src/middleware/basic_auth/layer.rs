use vstd::prelude::*;
use crate::middleware::basic_auth::service::BasicAuth;

verus! {

/// Applies basic authentication to the requests of the services it wraps.
#[derive(Clone, Debug)]
pub struct BasicAuthLayer<P> {
    pub provider: P,
}

impl<P> BasicAuthLayer<P> {
    pub fn new(provider: P) -> (res: Self)
        ensures
            res.provider == provider,
    {
        BasicAuthLayer { provider }
    }

    /// Wraps `service` with a copy of the provider.
    pub fn layer<S>(&self, service: S) -> (res: BasicAuth<S, P>)
        where
            P: Clone,
        ensures
            res.inner == service,
            cloned::<P>(self.provider, res.provider),
    {
        BasicAuth::new(service, self.provider.clone())
    }
}

} // verus!
