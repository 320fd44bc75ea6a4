//! `/api/connections` endpoints.
use vstd::prelude::*;

use crate::api::{
    named, named_ctx, paged, plain, under, under_path, with_context, Method, Request,
    RequestView,
};
use crate::pagination::PaginationQuery;

verus! {

/// `GET /api/connections`: all connections to the cluster.
pub fn list_connections() -> (r: Request)
    ensures
        r@ == plain(Method::Get, "connections"@),
{
    Request::plain(Method::Get, String::from_str("connections"))
}

/// `GET /api/connections` with pagination parameters.
pub fn list_connections_paged(q: &PaginationQuery) -> (r: Request)
    ensures
        r@ == paged("connections"@, *q),
{
    Request::paged(String::from_str("connections"), q)
}

/// `GET /api/connections/{name}`: one connection (names such as
/// `127.0.0.1:52341 -> 127.0.0.1:5672` are percent-encoded).
pub fn get_connection(name: &str) -> (r: Request)
    ensures
        r@ == with_context(Method::Get, under("connections/"@, name@), named("connection"@, name@)),
{
    Request::with_context(Method::Get, under_path("connections/", name), named_ctx("connection", name))
}

/// `DELETE /api/connections/{name}`: closes a connection; a `reason`, when
/// given, is sent in the `X-Reason` header.
pub fn close_connection(name: &str, reason: Option<&str>) -> (r: Request)
    ensures
        r@ == (RequestView {
            method: Method::Delete,
            path: under("connections/"@, name@),
            query: seq![],
            context: Some(named("connection"@, name@)),
            reason: match reason {
                Some(x) => Some(x@),
                None => None,
            },
        }),
{
    let mut r = Request::with_context(
        Method::Delete,
        under_path("connections/", name),
        named_ctx("connection", name),
    );
    r.reason = match reason {
        Some(x) => Some(String::from_str(x)),
        None => None,
    };
    r
}

/// `GET /api/connections/{name}/channels`: the channels of one
/// connection.
pub fn list_connection_channels(name: &str) -> (r: Request)
    ensures
        r@ == plain(Method::Get, under("connections/"@, name@) + "/channels"@),
{
    Request::plain(Method::Get, under_path("connections/", name).concat("/channels"))
}

} // verus!
