//! The state of a connection and the side that a peer plays on it.
use vstd::prelude::*;

verus! {

/// Describes connection status.
#[derive(Debug, Clone, PartialEq, Eq)]
pub enum ConnectionStatus {
    /// No connection established or pending.
    Unconnected,
    /// `connect()` is called but a connection is not yet established.
    Connecting,
    /// Connection is established.
    Connected,
    /// Connection has been closed via `close()`.
    Closed,
    /// Connection has been closed for any other reason.
    Error(String),
}

/// The side of a connection: the client opens it, the server accepts it.
#[derive(Debug, Clone, Copy, PartialEq, Eq, Structural)]
pub enum Role {
    /// The peer that opened the connection; its streams have odd IDs.
    Client,
    /// The peer that accepted the connection; its streams have even IDs.
    Server,
}

} // verus!
