//! `/api/channels` endpoints.
use vstd::prelude::*;

use crate::api::{named, named_ctx, plain, under, under_path, with_context, Method, Request};

verus! {

/// `GET /api/channels`: all channels across all connections.
pub fn list_channels() -> (r: Request)
    ensures
        r@ == plain(Method::Get, "channels"@),
{
    Request::plain(Method::Get, String::from_str("channels"))
}

/// `GET /api/channels/{name}`: one channel (names such as
/// `127.0.0.1:52341 -> 127.0.0.1:5672 (1)` are percent-encoded).
pub fn get_channel(name: &str) -> (r: Request)
    ensures
        r@ == with_context(Method::Get, under("channels/"@, name@), named("channel"@, name@)),
{
    Request::with_context(Method::Get, under_path("channels/", name), named_ctx("channel", name))
}

} // verus!
