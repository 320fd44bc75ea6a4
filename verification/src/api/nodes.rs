//! `/api/nodes` endpoints (node monitoring).
use vstd::prelude::*;

use crate::api::{named, named_ctx, under, under_path, with_context, Method, Request};

verus! {

/// `GET /api/nodes`: all cluster nodes with their resource usage metrics.
pub fn list_nodes() -> (r: Request)
    ensures
        r@ == with_context(Method::Get, "nodes"@, "nodes"@),
{
    Request::with_context(Method::Get, String::from_str("nodes"), String::from_str("nodes"))
}

/// `GET /api/nodes/{name}`: metrics of a single node; the node name is
/// percent-encoded (`rabbit@host` becomes `rabbit%40host`).
pub fn get_node(name: &str) -> (r: Request)
    ensures
        r@ == with_context(Method::Get, under("nodes/"@, name@), named("node"@, name@)),
{
    Request::with_context(Method::Get, under_path("nodes/", name), named_ctx("node", name))
}

} // verus!
