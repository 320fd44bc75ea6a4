//! Response type of `GET /api/nodes` and `GET /api/nodes/{name}`.
use vstd::prelude::*;

verus! {

/// A RabbitMQ cluster node and its resource usage metrics.
///
/// Field presence varies by server version and node state (target is
/// RabbitMQ 3.12+), so everything except `name` is optional.
#[derive(Debug, Clone)]
pub struct Node {
    /// Node name, e.g. `"rabbit@host1"`.
    pub name: String,
    /// Node type: `"disc"` or `"ram"` (sent under the JSON key `"type"`).
    pub node_type: Option<String>,
    /// Whether the node is running.
    pub running: Option<bool>,
    /// Memory used by the node, in bytes.
    pub mem_used: Option<u64>,
    /// Memory high-watermark limit, in bytes.
    pub mem_limit: Option<u64>,
    /// Whether the memory alarm is in effect.
    pub mem_alarm: Option<bool>,
    /// Free disk space, in bytes.
    pub disk_free: Option<u64>,
    /// Disk free low-watermark limit, in bytes.
    pub disk_free_limit: Option<u64>,
    /// Whether the disk free alarm is in effect.
    pub disk_free_alarm: Option<bool>,
    /// File descriptors used.
    pub fd_used: Option<u64>,
    /// File descriptors available.
    pub fd_total: Option<u64>,
    /// Sockets used.
    pub sockets_used: Option<u64>,
    /// Sockets available.
    pub sockets_total: Option<u64>,
    /// Erlang processes used.
    pub proc_used: Option<u64>,
    /// Erlang processes available.
    pub proc_total: Option<u64>,
    /// Average length of the Erlang run queue.
    pub run_queue: Option<u64>,
    /// Node uptime, in milliseconds.
    pub uptime: Option<u64>,
    /// Operating system PID of the node, as a string.
    pub os_pid: Option<String>,
    /// Statistics collection mode of the management plugin on this node
    /// (`"none"`, `"basic"`, or `"detailed"`).
    pub rates_mode: Option<String>,
}

} // verus!
