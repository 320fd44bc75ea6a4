//! `/api/bindings` endpoints.
use vstd::prelude::*;

use crate::api::{
    lemma_drop_prefix, lemma_split_at_first_slash, named, named_ctx, paged, plain, under, under2,
    under2_path, under_path, with_context, Method, Request,
};
use crate::encoding::{encode_segment, encoded_segment, lemma_encoded_segment_charset, lemma_encoded_segment_injective};
use crate::pagination::PaginationQuery;

verus! {

/// `bindings/{vhost}/e/{exchange}/q/{queue}`, the three names encoded.
pub open spec fn binding_path_of(vhost: Seq<char>, exchange: Seq<char>, queue: Seq<char>) -> Seq<char> {
    "bindings/"@ + encoded_segment(vhost) + "/e/"@ + encoded_segment(exchange) + "/q/"@
        + encoded_segment(queue)
}

/// `binding '{key}' from exchange '{exchange}' to queue '{queue}' in vhost '{vhost}'`.
pub open spec fn binding_context(
    vhost: Seq<char>,
    exchange: Seq<char>,
    queue: Seq<char>,
    key: Seq<char>,
) -> Seq<char> {
    named("binding"@, key) + " from exchange '"@ + exchange + "' to queue '"@ + queue
        + "' in vhost '"@ + vhost + "'"@
}

/// Percent-encode vhost, exchange and queue into a
/// `bindings/{vhost}/e/{exchange}/q/{queue}` relative path.
pub fn binding_path(vhost: &str, exchange: &str, queue: &str) -> (r: String)
    ensures
        r@ == binding_path_of(vhost@, exchange@, queue@),
{
    under_path("bindings/", vhost).concat("/e/").concat(encode_segment(exchange).as_str()).concat(
        "/q/",
    ).concat(encode_segment(queue).as_str())
}

/// Each (vhost, exchange, queue) triple has its own path.
pub proof fn lemma_binding_path_injective(
    v1: Seq<char>,
    e1: Seq<char>,
    q1: Seq<char>,
    v2: Seq<char>,
    e2: Seq<char>,
    q2: Seq<char>,
)
    ensures
        binding_path_of(v1, e1, q1) == binding_path_of(v2, e2, q2) ==> v1 == v2 && e1 == e2 && q1
            == q2,
{
    if binding_path_of(v1, e1, q1) == binding_path_of(v2, e2, q2) {
        reveal_strlit("/e/");
        reveal_strlit("/q/");
        reveal_strlit("/");
        reveal_strlit("e/");
        reveal_strlit("q/");
        let (a1, b1, c1) = (encoded_segment(v1), encoded_segment(e1), encoded_segment(q1));
        let (a2, b2, c2) = (encoded_segment(v2), encoded_segment(e2), encoded_segment(q2));
        lemma_encoded_segment_charset(v1);
        lemma_encoded_segment_charset(v2);
        lemma_encoded_segment_charset(e1);
        lemma_encoded_segment_charset(e2);
        let r1 = "e/"@ + b1 + "/"@ + ("q/"@ + c1);
        let r2 = "e/"@ + b2 + "/"@ + ("q/"@ + c2);
        assert(binding_path_of(v1, e1, q1) =~= "bindings/"@ + (a1 + "/"@ + r1));
        assert(binding_path_of(v2, e2, q2) =~= "bindings/"@ + (a2 + "/"@ + r2));
        lemma_drop_prefix("bindings/"@, a1 + "/"@ + r1, a2 + "/"@ + r2);
        lemma_split_at_first_slash(a1, r1, a2, r2);
        assert(r1 =~= "e/"@ + (b1 + "/"@ + ("q/"@ + c1)));
        assert(r2 =~= "e/"@ + (b2 + "/"@ + ("q/"@ + c2)));
        lemma_drop_prefix("e/"@, b1 + "/"@ + ("q/"@ + c1), b2 + "/"@ + ("q/"@ + c2));
        lemma_split_at_first_slash(b1, "q/"@ + c1, b2, "q/"@ + c2);
        lemma_drop_prefix("q/"@, c1, c2);
        lemma_encoded_segment_injective(v1, v2);
        lemma_encoded_segment_injective(e1, e2);
        lemma_encoded_segment_injective(q1, q2);
    }
}

/// `GET /api/bindings`: all bindings across all vhosts.
pub fn list_bindings() -> (r: Request)
    ensures
        r@ == plain(Method::Get, "bindings"@),
{
    Request::plain(Method::Get, String::from_str("bindings"))
}

/// `GET /api/bindings` with pagination parameters.
pub fn list_bindings_paged(q: &PaginationQuery) -> (r: Request)
    ensures
        r@ == paged("bindings"@, *q),
{
    Request::paged(String::from_str("bindings"), q)
}

/// `GET /api/bindings/{vhost}`: the bindings of one vhost.
pub fn list_bindings_in_vhost(vhost: &str) -> (r: Request)
    ensures
        r@ == plain(Method::Get, under("bindings/"@, vhost@)),
{
    Request::plain(Method::Get, under_path("bindings/", vhost))
}

/// `GET /api/queues/{vhost}/{queue}/bindings`: the bindings of one queue.
pub fn list_queue_bindings(vhost: &str, queue: &str) -> (r: Request)
    ensures
        r@ == plain(Method::Get, under2("queues/"@, vhost@, queue@) + "/bindings"@),
{
    Request::plain(Method::Get, under2_path("queues/", vhost, queue).concat("/bindings"))
}

/// `GET /api/bindings/{vhost}/e/{exchange}/q/{queue}`: the bindings
/// between one exchange and one queue.
pub fn list_bindings_between(vhost: &str, exchange: &str, queue: &str) -> (r: Request)
    ensures
        r@ == plain(Method::Get, binding_path_of(vhost@, exchange@, queue@)),
{
    Request::plain(Method::Get, binding_path(vhost, exchange, queue))
}

/// `POST /api/bindings/{vhost}/e/{exchange}/q/{queue}`: creates a binding.
pub fn bind(vhost: &str, exchange: &str, queue: &str) -> (r: Request)
    ensures
        r@ == plain(Method::Post, binding_path_of(vhost@, exchange@, queue@)),
{
    Request::plain(Method::Post, binding_path(vhost, exchange, queue))
}

/// `DELETE /api/bindings/{vhost}/e/{exchange}/q/{queue}/{properties_key}`:
/// deletes one binding, identified by its server-generated properties key.
pub fn unbind(vhost: &str, exchange: &str, queue: &str, properties_key: &str) -> (r: Request)
    ensures
        r@ == with_context(
            Method::Delete,
            binding_path_of(vhost@, exchange@, queue@) + "/"@ + encoded_segment(properties_key@),
            binding_context(vhost@, exchange@, queue@, properties_key@),
        ),
{
    let path = binding_path(vhost, exchange, queue).concat("/").concat(
        encode_segment(properties_key).as_str(),
    );
    let ctx = named_ctx("binding", properties_key).concat(" from exchange '").concat(exchange).concat(
        "' to queue '",
    ).concat(queue).concat("' in vhost '").concat(vhost).concat("'");
    Request::with_context(Method::Delete, path, ctx)
}

} // verus!
