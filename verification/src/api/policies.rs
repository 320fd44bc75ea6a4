//! `/api/policies` and `/api/operator-policies` endpoints.
use vstd::prelude::*;

use crate::api::{
    named_in_vhost, named_in_vhost_ctx, plain, under, under2, under2_path, under_path,
    with_context, Method, Request,
};

verus! {

/// `GET /api/policies`: all policies across all vhosts.
pub fn list_policies() -> (r: Request)
    ensures
        r@ == plain(Method::Get, "policies"@),
{
    Request::plain(Method::Get, String::from_str("policies"))
}

/// `GET /api/policies/{vhost}`: the policies of one vhost.
pub fn list_policies_in_vhost(vhost: &str) -> (r: Request)
    ensures
        r@ == plain(Method::Get, under("policies/"@, vhost@)),
{
    Request::plain(Method::Get, under_path("policies/", vhost))
}

/// `GET /api/policies/{vhost}/{name}`: one policy.
pub fn get_policy(vhost: &str, name: &str) -> (r: Request)
    ensures
        r@ == with_context(
            Method::Get,
            under2("policies/"@, vhost@, name@),
            named_in_vhost("policy"@, name@, vhost@),
        ),
{
    Request::with_context(
        Method::Get,
        under2_path("policies/", vhost, name),
        named_in_vhost_ctx("policy", name, vhost),
    )
}

/// `PUT /api/policies/{vhost}/{name}`: creates or updates a policy.
pub fn set_policy(vhost: &str, name: &str) -> (r: Request)
    ensures
        r@ == plain(Method::Put, under2("policies/"@, vhost@, name@)),
{
    Request::plain(Method::Put, under2_path("policies/", vhost, name))
}

/// `DELETE /api/policies/{vhost}/{name}`: deletes a policy.
pub fn delete_policy(vhost: &str, name: &str) -> (r: Request)
    ensures
        r@ == with_context(
            Method::Delete,
            under2("policies/"@, vhost@, name@),
            named_in_vhost("policy"@, name@, vhost@),
        ),
{
    Request::with_context(
        Method::Delete,
        under2_path("policies/", vhost, name),
        named_in_vhost_ctx("policy", name, vhost),
    )
}

/// `GET /api/operator-policies`: all operator policies across all vhosts.
pub fn list_operator_policies() -> (r: Request)
    ensures
        r@ == plain(Method::Get, "operator-policies"@),
{
    Request::plain(Method::Get, String::from_str("operator-policies"))
}

/// `GET /api/operator-policies/{vhost}`: the operator policies of one
/// vhost.
pub fn list_operator_policies_in_vhost(vhost: &str) -> (r: Request)
    ensures
        r@ == plain(Method::Get, under("operator-policies/"@, vhost@)),
{
    Request::plain(Method::Get, under_path("operator-policies/", vhost))
}

/// `GET /api/operator-policies/{vhost}/{name}`: one operator policy.
pub fn get_operator_policy(vhost: &str, name: &str) -> (r: Request)
    ensures
        r@ == with_context(
            Method::Get,
            under2("operator-policies/"@, vhost@, name@),
            named_in_vhost("operator policy"@, name@, vhost@),
        ),
{
    Request::with_context(
        Method::Get,
        under2_path("operator-policies/", vhost, name),
        named_in_vhost_ctx("operator policy", name, vhost),
    )
}

/// `PUT /api/operator-policies/{vhost}/{name}`: creates or updates an
/// operator policy.
pub fn set_operator_policy(vhost: &str, name: &str) -> (r: Request)
    ensures
        r@ == plain(Method::Put, under2("operator-policies/"@, vhost@, name@)),
{
    Request::plain(Method::Put, under2_path("operator-policies/", vhost, name))
}

/// `DELETE /api/operator-policies/{vhost}/{name}`: deletes an operator
/// policy.
pub fn delete_operator_policy(vhost: &str, name: &str) -> (r: Request)
    ensures
        r@ == with_context(
            Method::Delete,
            under2("operator-policies/"@, vhost@, name@),
            named_in_vhost("operator policy"@, name@, vhost@),
        ),
{
    Request::with_context(
        Method::Delete,
        under2_path("operator-policies/", vhost, name),
        named_in_vhost_ctx("operator policy", name, vhost),
    )
}

} // verus!
