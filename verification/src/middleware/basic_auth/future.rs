use vstd::prelude::*;
use crate::error::ApiError;

verus! {

/// What a response future of the basic auth layer is waiting on.
pub enum Kind<F> {
    /// The inner service's future.
    Future { future: F },
    /// An error to answer with, until it has been taken.
    ApiError { api_error: Option<ApiError> },
}

/// The response of the basic auth layer: the inner service's, or an error.
pub struct ResponseFuture<F> {
    pub kind: Kind<F>,
}

impl<F> ResponseFuture<F> {
    /// Waits on the inner service.
    pub fn future(future: F) -> (res: Self)
        ensures
            res.kind == (Kind::Future { future }),
    {
        ResponseFuture { kind: Kind::Future { future } }
    }

    /// Answers with an error.
    pub fn api_error(api_error: ApiError) -> (res: Self)
        ensures
            res.kind == (Kind::ApiError::<F> { api_error: Some(api_error) }),
    {
        ResponseFuture { kind: Kind::ApiError { api_error: Some(api_error) } }
    }

    /// The inner future to poll, if the response waits on one.
    pub fn inner_future(&mut self) -> (res: Option<&mut F>)
        ensures
            match old(self).kind {
                Kind::Future { future } => res matches Some(f) && *f == future
                    && final(self).kind == (Kind::Future { future: *final(f) }),
                Kind::ApiError { .. } => res is None && final(self).kind == old(self).kind,
            },
    {
        match &mut self.kind {
            Kind::Future { future } => Some(future),
            Kind::ApiError { .. } => None,
        }
    }

    /// Takes the error to answer with; `None` once it has been taken or if the response
    /// waits on the inner service.
    pub fn take_api_error(&mut self) -> (res: Option<ApiError>)
        ensures
            match old(self).kind {
                Kind::Future { .. } => res is None && final(self).kind == old(self).kind,
                Kind::ApiError { api_error } => res == api_error
                    && final(self).kind == (Kind::ApiError::<F> { api_error: None }),
            },
    {
        match &mut self.kind {
            Kind::Future { .. } => None,
            Kind::ApiError { api_error } => api_error.take(),
        }
    }
}

} // verus!
