//! A layer that requires basic auth credentials before a request reaches the inner service.

pub mod future;
pub mod layer;
pub mod provider;
pub mod service;
