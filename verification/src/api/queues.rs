//! `/api/queues` endpoints.
use vstd::prelude::*;

use crate::api::{
    lemma_under2_injective, named_in_vhost, named_in_vhost_ctx, paged, plain, under, under2,
    under2_path, under_path, with_context, Method, Request,
};
use crate::pagination::PaginationQuery;

verus! {

/// `queues/{vhost}/{name}`, both segments encoded.
pub open spec fn queue_path_of(vhost: Seq<char>, name: Seq<char>) -> Seq<char> {
    under2("queues/"@, vhost, name)
}

/// `queue '{name}' in vhost '{vhost}'`.
pub open spec fn queue_context(vhost: Seq<char>, name: Seq<char>) -> Seq<char> {
    named_in_vhost("queue"@, name, vhost)
}

/// Percent-encode a vhost and queue name into a `queues/{vhost}/{name}`
/// relative path.
pub fn queue_path(vhost: &str, name: &str) -> (r: String)
    ensures
        r@ == queue_path_of(vhost@, name@),
{
    under2_path("queues/", vhost, name)
}

/// Each (vhost, queue) pair has its own path.
pub proof fn lemma_queue_path_injective(v1: Seq<char>, n1: Seq<char>, v2: Seq<char>, n2: Seq<char>)
    ensures
        queue_path_of(v1, n1) == queue_path_of(v2, n2) ==> v1 == v2 && n1 == n2,
{
    lemma_under2_injective("queues/"@, v1, n1, v2, n2);
}

/// `GET /api/queues`: all queues across all vhosts.
pub fn list_queues() -> (r: Request)
    ensures
        r@ == plain(Method::Get, "queues"@),
{
    Request::plain(Method::Get, String::from_str("queues"))
}

/// `GET /api/queues` with pagination parameters.
pub fn list_queues_paged(q: &PaginationQuery) -> (r: Request)
    ensures
        r@ == paged("queues"@, *q),
{
    Request::paged(String::from_str("queues"), q)
}

/// `GET /api/queues/{vhost}`: the queues of one vhost.
pub fn list_queues_in_vhost(vhost: &str) -> (r: Request)
    ensures
        r@ == plain(Method::Get, under("queues/"@, vhost@)),
{
    Request::plain(Method::Get, under_path("queues/", vhost))
}

/// `GET /api/queues/{vhost}/{name}`: one queue.
pub fn get_queue(vhost: &str, name: &str) -> (r: Request)
    ensures
        r@ == with_context(Method::Get, queue_path_of(vhost@, name@), queue_context(vhost@, name@)),
{
    Request::with_context(Method::Get, queue_path(vhost, name), named_in_vhost_ctx("queue", name, vhost))
}

/// `PUT /api/queues/{vhost}/{name}`: declares a queue.
pub fn declare_queue(vhost: &str, name: &str) -> (r: Request)
    ensures
        r@ == plain(Method::Put, queue_path_of(vhost@, name@)),
{
    Request::plain(Method::Put, queue_path(vhost, name))
}

/// `DELETE /api/queues/{vhost}/{name}`: deletes a queue.
pub fn delete_queue(vhost: &str, name: &str) -> (r: Request)
    ensures
        r@ == with_context(Method::Delete, queue_path_of(vhost@, name@), queue_context(vhost@, name@)),
{
    Request::with_context(Method::Delete, queue_path(vhost, name), named_in_vhost_ctx("queue", name, vhost))
}

/// `DELETE /api/queues/{vhost}/{name}/contents`: purges a queue.
pub fn purge_queue(vhost: &str, name: &str) -> (r: Request)
    ensures
        r@ == with_context(
            Method::Delete,
            queue_path_of(vhost@, name@) + "/contents"@,
            queue_context(vhost@, name@),
        ),
{
    Request::with_context(
        Method::Delete,
        queue_path(vhost, name).concat("/contents"),
        named_in_vhost_ctx("queue", name, vhost),
    )
}

/// `POST /api/queues/{vhost}/{name}/actions`: a queue action (`sync` or
/// `cancel_sync`).
pub fn queue_action(vhost: &str, name: &str) -> (r: Request)
    ensures
        r@ == plain(Method::Post, queue_path_of(vhost@, name@) + "/actions"@),
{
    Request::plain(Method::Post, queue_path(vhost, name).concat("/actions"))
}

/// `POST /api/queues/{vhost}/{name}/get`: fetches messages.
pub fn get_messages(vhost: &str, name: &str) -> (r: Request)
    ensures
        r@ == plain(Method::Post, queue_path_of(vhost@, name@) + "/get"@),
{
    Request::plain(Method::Post, queue_path(vhost, name).concat("/get"))
}

} // verus!
