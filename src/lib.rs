//! Turns a description of an HTTP request into an outbound call and the
//! transport's answer into a uniform response description.
//!
//! The network work itself happens outside this library: an [`exchange::Exchange`]
//! says what to do next, and the caller performs it and reports what happened.

pub mod method;
pub mod error;
pub mod request;
pub mod response;
pub mod exchange;
