//! `/api/vhosts` endpoints.
use vstd::prelude::*;

use crate::api::{named, named_ctx, plain, under, under_path, with_context, Method, Request};

verus! {

/// `GET /api/vhosts`: all virtual hosts.
pub fn list_vhosts() -> (r: Request)
    ensures
        r@ == plain(Method::Get, "vhosts"@),
{
    Request::plain(Method::Get, String::from_str("vhosts"))
}

/// `GET /api/vhosts/{name}`: one vhost (`/` becomes `%2F`).
pub fn get_vhost(name: &str) -> (r: Request)
    ensures
        r@ == with_context(Method::Get, under("vhosts/"@, name@), named("vhost"@, name@)),
{
    Request::with_context(Method::Get, under_path("vhosts/", name), named_ctx("vhost", name))
}

/// `PUT /api/vhosts/{name}`: creates a vhost (with an empty JSON body).
pub fn create_vhost(name: &str) -> (r: Request)
    ensures
        r@ == plain(Method::Put, under("vhosts/"@, name@)),
{
    Request::plain(Method::Put, under_path("vhosts/", name))
}

/// `DELETE /api/vhosts/{name}`: deletes a vhost.
pub fn delete_vhost(name: &str) -> (r: Request)
    ensures
        r@ == with_context(Method::Delete, under("vhosts/"@, name@), named("vhost"@, name@)),
{
    Request::with_context(Method::Delete, under_path("vhosts/", name), named_ctx("vhost", name))
}

/// `GET /api/vhosts/{vhost}/permissions`: the permissions granted within a
/// vhost.
pub fn list_vhost_permissions(vhost: &str) -> (r: Request)
    ensures
        r@ == plain(Method::Get, under("vhosts/"@, vhost@) + "/permissions"@),
{
    Request::plain(Method::Get, under_path("vhosts/", vhost).concat("/permissions"))
}

} // verus!
