//! Error taxonomy. Build-time failures are local and reported before any
//! network activity; transport failures describe what went wrong while a
//! request was on the wire. Every failure is surfaced as a typed value;
//! none is swallowed or retried.

use vstd::prelude::*;

verus! {

/// A reason the request could not be validated and assembled.
#[derive(Clone, Copy, PartialEq, Eq, Structural, Debug)]
pub enum BuildError {
    /// The method label names no supported HTTP method.
    InvalidMethod,
    /// The URL is not an absolute `http`/`https` URL.
    InvalidUrl,
    /// A header name or value breaks the header syntax rules.
    InvalidHeader,
}

/// A reason a send that reached the wire did not yield a complete response.
#[derive(Clone, Copy, PartialEq, Eq, Structural, Debug)]
pub enum TransportError {
    /// DNS, connect or TLS failure before any response arrived.
    ConnectionError,
    /// The configured deadline passed with no response.
    TimeoutError,
    /// The remote answered with something that is not well-formed HTTP.
    ProtocolError,
    /// The response body could not be read to completion after the
    /// status and headers had arrived.
    BodyReadError,
}

impl BuildError {
    /// A short display text for this error.
    pub fn describe(&self) -> (r: &'static str)
        ensures
            *self is InvalidMethod ==> r@ == "invalid method"@,
            *self is InvalidUrl ==> r@ == "invalid url"@,
            *self is InvalidHeader ==> r@ == "invalid header"@,
    {
        match self {
            BuildError::InvalidMethod => "invalid method",
            BuildError::InvalidUrl => "invalid url",
            BuildError::InvalidHeader => "invalid header",
        }
    }
}

impl TransportError {
    /// A short display text for this error.
    pub fn describe(&self) -> (r: &'static str)
        ensures
            *self is ConnectionError ==> r@ == "connection error"@,
            *self is TimeoutError ==> r@ == "timeout"@,
            *self is ProtocolError ==> r@ == "protocol error"@,
            *self is BodyReadError ==> r@ == "body read error"@,
    {
        match self {
            TransportError::ConnectionError => "connection error",
            TransportError::TimeoutError => "timeout",
            TransportError::ProtocolError => "protocol error",
            TransportError::BodyReadError => "body read error",
        }
    }
}

} // verus!
