//! `/api/permissions/{vhost}/{user}` endpoints.
use vstd::prelude::*;

use crate::api::{
    lemma_under2_injective, named_in_vhost, named_in_vhost_ctx, plain, under2, under2_path,
    with_context, Method, Request,
};

verus! {

/// `permissions/{vhost}/{user}`, both segments encoded.
pub open spec fn permission_path_of(vhost: Seq<char>, user: Seq<char>) -> Seq<char> {
    under2("permissions/"@, vhost, user)
}

/// Percent-encode vhost and user into a `permissions/{vhost}/{user}`
/// relative path.
pub fn permission_path(vhost: &str, user: &str) -> (r: String)
    ensures
        r@ == permission_path_of(vhost@, user@),
{
    under2_path("permissions/", vhost, user)
}

/// Each (vhost, user) pair has its own path.
pub proof fn lemma_permission_path_injective(v1: Seq<char>, u1: Seq<char>, v2: Seq<char>, u2: Seq<char>)
    ensures
        permission_path_of(v1, u1) == permission_path_of(v2, u2) ==> v1 == v2 && u1 == u2,
{
    lemma_under2_injective("permissions/"@, v1, u1, v2, u2);
}

/// `PUT /api/permissions/{vhost}/{user}`: grants a user configure, write
/// and read permissions within a vhost.
pub fn set_permission(vhost: &str, user: &str) -> (r: Request)
    ensures
        r@ == plain(Method::Put, permission_path_of(vhost@, user@)),
{
    Request::plain(Method::Put, permission_path(vhost, user))
}

/// `DELETE /api/permissions/{vhost}/{user}`: revokes all of a user's
/// permissions within a vhost.
pub fn delete_permission(vhost: &str, user: &str) -> (r: Request)
    ensures
        r@ == with_context(
            Method::Delete,
            permission_path_of(vhost@, user@),
            named_in_vhost("permission for user"@, user@, vhost@),
        ),
{
    Request::with_context(
        Method::Delete,
        permission_path(vhost, user),
        named_in_vhost_ctx("permission for user", user, vhost),
    )
}

} // verus!
