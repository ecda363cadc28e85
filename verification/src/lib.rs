//! A verified core for an HTTP/1 client that speaks over a Unix domain
//! socket.
//!
//! The client keeps one persistent connection: a sender handle in the
//! foreground and a driver task in the background that pumps the wire
//! protocol. The I/O objects themselves (the socket, the protocol engine's
//! sender handle, the spawned task) live with the unverified caller that
//! performs the I/O; this crate makes, and proves correct, every decision
//! about them: how a connection attempt's outcome maps to the error taxonomy,
//! how a request is assembled, how a completed or failed exchange resolves to
//! the caller-visible result, and how the client's lifecycle state evolves
//! through sends, abort and reconnect.
//!
//! Exactly one request is in flight per connection at a time. That is a usage
//! contract, not an enforced lock: callers that share one client across tasks
//! must serialize access themselves, for instance behind a mutex.

pub mod error;
pub mod exchange;
pub mod lifecycle;
pub mod request;
