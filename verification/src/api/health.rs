//! `/api/health/checks/*`, `/api/alarms` and `/api/rebalance/queues`.
//!
//! A failing health check answers 503 with a JSON body; that surfaces as
//! `Error::Api { status: 503, .. }` with the body as the reason.
use vstd::prelude::*;

use crate::api::{plain, under, under_path, Method, Request};
use crate::text::{decimal, write_decimal};

verus! {

/// `GET /api/health/checks/alarms`: no alarm is in effect in the cluster.
pub fn health_check_alarms() -> (r: Request)
    ensures
        r@ == plain(Method::Get, "health/checks/alarms"@),
{
    Request::plain(Method::Get, String::from_str("health/checks/alarms"))
}

/// `GET /api/health/checks/local-alarms`: no alarm is in effect on the
/// target node.
pub fn health_check_local_alarms() -> (r: Request)
    ensures
        r@ == plain(Method::Get, "health/checks/local-alarms"@),
{
    Request::plain(Method::Get, String::from_str("health/checks/local-alarms"))
}

/// `GET /api/health/checks/port-listener/{port}`: a listener is active on
/// the port.
pub fn health_check_port_listener(port: u16) -> (r: Request)
    ensures
        r@ == plain(Method::Get, "health/checks/port-listener/"@ + decimal(port as nat)),
{
    let mut path = String::from_str("health/checks/port-listener/");
    write_decimal(port as u64, &mut path);
    Request::plain(Method::Get, path)
}

/// `GET /api/health/checks/protocol-listener/{protocol}`: a listener for
/// the protocol (e.g. `amqp`, `mqtt`) is active.
pub fn health_check_protocol_listener(protocol: &str) -> (r: Request)
    ensures
        r@ == plain(Method::Get, under("health/checks/protocol-listener/"@, protocol@)),
{
    Request::plain(Method::Get, under_path("health/checks/protocol-listener/", protocol))
}

/// `GET /api/health/checks/node-is-quorum-critical`: whether shutting the
/// node down would leave quorum queues without quorum.
pub fn health_check_node_is_quorum_critical() -> (r: Request)
    ensures
        r@ == plain(Method::Get, "health/checks/node-is-quorum-critical"@),
{
    Request::plain(Method::Get, String::from_str("health/checks/node-is-quorum-critical"))
}

/// `GET /api/health/checks/virtual-hosts`: all vhosts are running on the
/// target node.
pub fn health_check_virtual_hosts() -> (r: Request)
    ensures
        r@ == plain(Method::Get, "health/checks/virtual-hosts"@),
{
    Request::plain(Method::Get, String::from_str("health/checks/virtual-hosts"))
}

/// `GET /api/alarms`: the alarms in effect in the cluster.
pub fn list_alarms() -> (r: Request)
    ensures
        r@ == plain(Method::Get, "alarms"@),
{
    Request::plain(Method::Get, String::from_str("alarms"))
}

/// `POST /api/rebalance/queues`: rebalances queue leadership across nodes
/// (with an empty JSON body).
pub fn rebalance_queues() -> (r: Request)
    ensures
        r@ == plain(Method::Post, "rebalance/queues"@),
{
    Request::plain(Method::Post, String::from_str("rebalance/queues"))
}

} // verus!
