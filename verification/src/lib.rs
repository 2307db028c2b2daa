//! Request authentication, error shaping and JWT validation for an HTTP API.

pub mod text;
pub mod cli_args;
pub mod foreign;
pub mod error;
pub mod extractor;
pub mod headers;
pub mod traits;
pub mod types;
pub mod state;
pub mod middleware;
pub mod utils;
pub mod jwks;
pub mod route;
