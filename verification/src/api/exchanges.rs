//! `/api/exchanges` endpoints.
use vstd::prelude::*;

use crate::api::{
    lemma_under2_injective, named_in_vhost, named_in_vhost_ctx, paged, plain, under, under2,
    under2_path, under_path, with_context, Method, Request,
};
use crate::pagination::PaginationQuery;

verus! {

/// `exchanges/{vhost}/{name}`, both segments encoded.
pub open spec fn exchange_path_of(vhost: Seq<char>, name: Seq<char>) -> Seq<char> {
    under2("exchanges/"@, vhost, name)
}

/// `exchange '{name}' in vhost '{vhost}'`.
pub open spec fn exchange_context(vhost: Seq<char>, name: Seq<char>) -> Seq<char> {
    named_in_vhost("exchange"@, name, vhost)
}

/// Percent-encode a vhost and exchange name into an
/// `exchanges/{vhost}/{name}` relative path.
pub fn exchange_path(vhost: &str, name: &str) -> (r: String)
    ensures
        r@ == exchange_path_of(vhost@, name@),
{
    under2_path("exchanges/", vhost, name)
}

/// Each (vhost, exchange) pair has its own path.
pub proof fn lemma_exchange_path_injective(v1: Seq<char>, n1: Seq<char>, v2: Seq<char>, n2: Seq<char>)
    ensures
        exchange_path_of(v1, n1) == exchange_path_of(v2, n2) ==> v1 == v2 && n1 == n2,
{
    lemma_under2_injective("exchanges/"@, v1, n1, v2, n2);
}

/// `GET /api/exchanges`: all exchanges across all vhosts.
pub fn list_exchanges() -> (r: Request)
    ensures
        r@ == plain(Method::Get, "exchanges"@),
{
    Request::plain(Method::Get, String::from_str("exchanges"))
}

/// `GET /api/exchanges` with pagination parameters.
pub fn list_exchanges_paged(q: &PaginationQuery) -> (r: Request)
    ensures
        r@ == paged("exchanges"@, *q),
{
    Request::paged(String::from_str("exchanges"), q)
}

/// `GET /api/exchanges/{vhost}`: the exchanges of one vhost.
pub fn list_exchanges_in_vhost(vhost: &str) -> (r: Request)
    ensures
        r@ == plain(Method::Get, under("exchanges/"@, vhost@)),
{
    Request::plain(Method::Get, under_path("exchanges/", vhost))
}

/// `GET /api/exchanges/{vhost}/{name}`: one exchange.
pub fn get_exchange(vhost: &str, name: &str) -> (r: Request)
    ensures
        r@ == with_context(
            Method::Get,
            exchange_path_of(vhost@, name@),
            exchange_context(vhost@, name@),
        ),
{
    Request::with_context(
        Method::Get,
        exchange_path(vhost, name),
        named_in_vhost_ctx("exchange", name, vhost),
    )
}

/// `PUT /api/exchanges/{vhost}/{name}`: declares an exchange.
pub fn declare_exchange(vhost: &str, name: &str) -> (r: Request)
    ensures
        r@ == plain(Method::Put, exchange_path_of(vhost@, name@)),
{
    Request::plain(Method::Put, exchange_path(vhost, name))
}

/// `DELETE /api/exchanges/{vhost}/{name}`: deletes an exchange.
pub fn delete_exchange(vhost: &str, name: &str) -> (r: Request)
    ensures
        r@ == with_context(
            Method::Delete,
            exchange_path_of(vhost@, name@),
            exchange_context(vhost@, name@),
        ),
{
    Request::with_context(
        Method::Delete,
        exchange_path(vhost, name),
        named_in_vhost_ctx("exchange", name, vhost),
    )
}

/// `POST /api/exchanges/{vhost}/{name}/publish`: publishes a message.
pub fn publish_to_exchange(vhost: &str, name: &str) -> (r: Request)
    ensures
        r@ == plain(Method::Post, exchange_path_of(vhost@, name@) + "/publish"@),
{
    Request::plain(Method::Post, exchange_path(vhost, name).concat("/publish"))
}

/// `GET /api/exchanges/{vhost}/{name}/bindings/source`: the bindings whose
/// source is this exchange.
pub fn list_exchange_bindings_source(vhost: &str, name: &str) -> (r: Request)
    ensures
        r@ == plain(Method::Get, exchange_path_of(vhost@, name@) + "/bindings/source"@),
{
    Request::plain(Method::Get, exchange_path(vhost, name).concat("/bindings/source"))
}

} // verus!
