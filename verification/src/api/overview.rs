//! `/api/overview` and `/api/cluster-name`: cluster-wide monitoring summary
//! and cluster identity.
use vstd::prelude::*;

use crate::api::{plain, Method, Request};

verus! {

/// `GET /api/overview`: object totals, queue totals, message rates,
/// listeners and versions.
pub fn overview() -> (r: Request)
    ensures
        r@ == plain(Method::Get, "overview"@),
{
    Request::plain(Method::Get, String::from_str("overview"))
}

/// `GET /api/cluster-name`: the cluster's name, wrapped as
/// `{ "name": ... }`.
pub fn cluster_name() -> (r: Request)
    ensures
        r@ == plain(Method::Get, "cluster-name"@),
{
    Request::plain(Method::Get, String::from_str("cluster-name"))
}

} // verus!
