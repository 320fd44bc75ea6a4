//! `/api/consumers` endpoints.
use vstd::prelude::*;

use crate::api::{plain, under, under_path, Method, Request};

verus! {

/// `GET /api/consumers`: all consumers across all vhosts.
pub fn list_consumers() -> (r: Request)
    ensures
        r@ == plain(Method::Get, "consumers"@),
{
    Request::plain(Method::Get, String::from_str("consumers"))
}

/// `GET /api/consumers/{vhost}`: the consumers of one vhost.
pub fn list_consumers_in_vhost(vhost: &str) -> (r: Request)
    ensures
        r@ == plain(Method::Get, under("consumers/"@, vhost@)),
{
    Request::plain(Method::Get, under_path("consumers/", vhost))
}

} // verus!
