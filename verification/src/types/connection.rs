//! Types of `GET /api/connections` and related endpoints.
use vstd::prelude::*;

verus! {

/// A client connection to the broker, as returned by
/// `GET /api/connections`.
///
/// Only `name` is guaranteed; every other field is optional because the
/// Management API may omit fields depending on connection state and the
/// monitoring level.
#[derive(Debug, Clone)]
pub struct Connection {
    /// Connection name, typically
    /// `"<peer_host>:<peer_port> -> <host>:<port>"`.
    pub name: String,
    /// Virtual host the connection is on.
    pub vhost: Option<String>,
    /// Username the connection authenticated as.
    pub user: Option<String>,
    /// Connection state (e.g. `"running"`, `"blocked"`, `"closing"`).
    pub state: Option<String>,
    /// Protocol name (e.g. `"AMQP 0-9-1"`).
    pub protocol: Option<String>,
    /// Broker host the connection is established to.
    pub host: Option<String>,
    /// Broker port the connection is established to.
    pub port: Option<u32>,
    /// Client (peer) host.
    pub peer_host: Option<String>,
    /// Client (peer) port.
    pub peer_port: Option<u32>,
    /// Number of channels open on this connection.
    pub channels: Option<u64>,
    /// Timestamp (milliseconds since epoch) when the connection was
    /// established.
    pub connected_at: Option<u64>,
    /// Octets received over this connection.
    pub recv_oct: Option<u64>,
    /// Octets sent over this connection.
    pub send_oct: Option<u64>,
}

} // verus!
