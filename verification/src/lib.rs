//! Request-construction core of a small HTTP client: a typed method model,
//! a case-insensitive header map, URL and header validation, request
//! building, a single-flight send session, and response normalization.
//!
//! The blocking network call itself is not here: a caller builds a
//! `TransportRequest`, performs the send with the transport of its choice,
//! and hands the outcome back as plain values to be settled and normalized.

pub mod chars;
pub mod error;
pub mod executor;
pub mod headers;
pub mod method;
pub mod request;
pub mod response;
pub mod url;
