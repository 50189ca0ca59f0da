//! Send session: the decision core of the executor. The blocking network
//! call itself runs outside this library, off the caller's UI context; the
//! session decides what the caller may do and what each outcome means.
//!
//! At most one send is active per session. Starting a send while one is
//! pending is rejected (the "busy" policy); a pending send is settled by
//! handing back the transport's outcome, exactly once, through the token
//! that starting it produced. Every send is settled with a typed result —
//! never silence, never a second delivery for the same token.

use vstd::prelude::*;

use crate::error::TransportError;
use crate::headers::{collected, HeaderEntry};
use crate::response::{lossy_utf8, normalize, Response};

verus! {

/// What came back from the transport for one send, as plain values.
pub enum TransportEvent {
    /// A complete response arrived and its body was fully drained.
    Completed { status: u16, headers: Vec<HeaderEntry>, body: Vec<u8> },
    /// The remote could not be reached (DNS, connect or TLS failure).
    ConnectionFailed,
    /// The configured deadline passed before a response arrived.
    TimedOut,
    /// The remote's answer was not well-formed HTTP.
    Malformed,
    /// The body could not be read to completion after the status and
    /// headers had arrived.
    BodyReadFailed,
}

/// The capability to settle one pending send. Produced only by
/// `Executor::begin` and consumed by `Executor::settle`, so each send is
/// settled exactly once.
pub struct SendToken {
    marker: (),
}

/// One send session: tracks whether a send is in flight and carries the
/// deadline that the transport must impose on each send.
pub struct Executor {
    pending: bool,
    timeout_ms: u64,
}

impl Executor {
    /// Whether a send is in flight.
    pub closed spec fn spec_pending(self) -> bool {
        self.pending
    }

    /// The configured per-send deadline, in milliseconds.
    pub closed spec fn spec_timeout_ms(self) -> u64 {
        self.timeout_ms
    }

    /// A fresh session with no send in flight and the given deadline.
    pub fn new(timeout_ms: u64) -> (e: Executor)
        ensures
            !e.spec_pending(),
            e.spec_timeout_ms() == timeout_ms,
    {
        Executor { pending: false, timeout_ms }
    }

    /// The configured per-send deadline, in milliseconds.
    pub fn timeout_ms(&self) -> (r: u64)
        ensures
            r == self.spec_timeout_ms(),
    {
        self.timeout_ms
    }

    /// Whether a send is in flight.
    pub fn is_pending(&self) -> (r: bool)
        ensures
            r == self.spec_pending(),
    {
        self.pending
    }

    /// Tries to start a send. While one is pending the new send is
    /// rejected — `None`, the busy indication — and the session is
    /// unchanged; otherwise the session becomes pending and the returned
    /// token is the one capability to settle it.
    pub fn begin(&mut self) -> (r: Option<SendToken>)
        ensures
            final(self).spec_timeout_ms() == old(self).spec_timeout_ms(),
            old(self).spec_pending() ==> r is None && *final(self) == *old(self),
            !old(self).spec_pending() ==> r is Some && final(self).spec_pending(),
    {
        if self.pending {
            None
        } else {
            self.pending = true;
            Some(SendToken { marker: () })
        }
    }

    /// Settles the pending send with the transport's outcome, consuming
    /// the token: a completed response is normalized, and each failure
    /// kind maps to its transport error. The session stops being pending,
    /// so the next `begin` is accepted.
    pub fn settle(&mut self, token: SendToken, event: TransportEvent) -> (r: Result<
        Response,
        TransportError,
    >)
        requires
            old(self).spec_pending(),
        ensures
            !final(self).spec_pending(),
            final(self).spec_timeout_ms() == old(self).spec_timeout_ms(),
            event matches TransportEvent::Completed { status, headers, body } ==> (r matches Ok(
                resp,
            ) && resp.status == status && resp.headers.wf() && resp.headers@ == collected(
                headers@.map_values(|e: HeaderEntry| e@),
            ) && resp.body@ == lossy_utf8(body@)),
            event is ConnectionFailed ==> r == Err::<Response, TransportError>(
                TransportError::ConnectionError,
            ),
            event is TimedOut ==> r == Err::<Response, TransportError>(
                TransportError::TimeoutError,
            ),
            event is Malformed ==> r == Err::<Response, TransportError>(
                TransportError::ProtocolError,
            ),
            event is BodyReadFailed ==> r == Err::<Response, TransportError>(
                TransportError::BodyReadError,
            ),
    {
        let SendToken { marker: _ } = token;
        self.pending = false;
        match event {
            TransportEvent::Completed { status, headers, body } => Ok(
                normalize(status, headers, body),
            ),
            TransportEvent::ConnectionFailed => Err(TransportError::ConnectionError),
            TransportEvent::TimedOut => Err(TransportError::TimeoutError),
            TransportEvent::Malformed => Err(TransportError::ProtocolError),
            TransportEvent::BodyReadFailed => Err(TransportError::BodyReadError),
        }
    }
}

} // verus!
