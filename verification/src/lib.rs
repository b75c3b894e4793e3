//! A session-oriented terminal gateway core: a registry of terminal
//! sessions keyed by generated identifiers, a session lifecycle state
//! machine, typed control envelopes decoded from JSON text, and a router
//! that dispatches envelopes to session operations and produces outbound
//! frames.

use vstd::prelude::*;

pub mod envelope;
pub mod frames;
pub mod http;
pub mod output;
pub mod registry;
pub mod router;
pub mod session;
pub mod trusted;

verus! {

/// The gateway's failure taxonomy. Per-connection errors are isolated:
/// `SessionDead` and `MalformedEnvelope` are reported to the client while
/// the connection stays open; `TransportError` tears the connection down;
/// `HandshakeFailure` and `SpawnFailure` abort before a session exists.
#[derive(Clone, Copy, PartialEq, Eq, Structural, Debug)]
pub enum GatewayError {
    HandshakeFailure,
    SpawnFailure,
    SessionDead,
    MalformedEnvelope,
    TransportError,
    DuplicateSession,
}

} // verus!
