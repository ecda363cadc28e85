use vstd::prelude::*;

verus! {

/// A plain record of one failure reported by the transport or protocol
/// layer: whether it was classified as a cancellation / connection-loss
/// condition, and a human-readable description.
#[derive(Debug, Clone)]
pub struct Fault {
    pub canceled: bool,
    pub message: String,
}

impl Fault {
    /// Whether this fault was classified as a cancellation / connection-loss
    /// condition — the signal that a reconnect is appropriate.
    pub fn is_canceled(&self) -> (r: bool)
        ensures
            r == self.canceled,
    {
        self.canceled
    }
}

/// The fatal / internal error family: failures of the transport, the
/// protocol, or the plumbing around them — never of the remote application.
/// Each variant carries the underlying fault, so the kinds stay
/// distinguishable: a caller detects "server not running" as
/// `SocketConnectionInitiation` and nothing else.
#[derive(Debug, Clone)]
pub enum Error {
    /// Opening the Unix socket failed (file absent, permission denied,
    /// connection refused).
    SocketConnectionInitiation(Fault),
    /// The HTTP/1 handshake over the freshly dialed stream failed.
    Handshake(Fault),
    /// The request could not be built (for instance invalid header bytes) —
    /// a caller bug, not a transport condition.
    RequestBuild(Fault),
    /// Submitting the request failed: the sender handle is dead, the
    /// connection was reset, or the driver task is gone.
    RequestSend(Fault),
    /// The response arrived but its body could not be collected.
    ResponseCollect(Fault),
    /// The driver task's terminal outcome: the connection ended, gracefully
    /// (`None`) or through a transport fault (`Some`).
    SocketConnectionClosed(Option<Fault>),
}

/// The two top-level failure families of one request/response exchange: an
/// internal fault of the plumbing, or a completed exchange whose status the
/// remote application deems unsuccessful — the latter always carries the
/// fully collected body, since error bodies often hold the diagnostics the
/// caller needs.
#[derive(Debug, Clone)]
pub enum ErrorAndResponse {
    InternalError(Error),
    ResponseUnsuccessful(u16, Vec<u8>),
}

} // verus!
