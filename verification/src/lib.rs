//! A thin, typed client for the WorkOs SSO REST API.
//!
//! The configuration holder ([`workos::WorkOs`]) stores the API secret key,
//! the base URL and an optional bearer token.  The SSO client wraps three
//! HTTP endpoints (token exchange, profile retrieval, connection retrieval)
//! with typed request/response models; every response body is decoded by the
//! crate's own verified JSON reader.

pub mod errors;
pub mod json;
pub mod model;
pub mod sso;
pub mod text;
pub mod workos;
