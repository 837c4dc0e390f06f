//! Network requests, responses and interception.
pub mod headers;
pub mod request;
pub mod response;
pub mod route;
