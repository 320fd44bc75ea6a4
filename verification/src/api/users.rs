//! `/api/users` endpoints.
use vstd::prelude::*;

use crate::api::{named, named_ctx, plain, under, under_path, with_context, Method, Request};

verus! {

/// `GET /api/users`: all users.
pub fn list_users() -> (r: Request)
    ensures
        r@ == plain(Method::Get, "users"@),
{
    Request::plain(Method::Get, String::from_str("users"))
}

/// `GET /api/users/{name}`: one user.
pub fn get_user(name: &str) -> (r: Request)
    ensures
        r@ == with_context(Method::Get, under("users/"@, name@), named("user"@, name@)),
{
    Request::with_context(Method::Get, under_path("users/", name), named_ctx("user", name))
}

/// `PUT /api/users/{name}`: creates or updates a user.
pub fn create_user(name: &str) -> (r: Request)
    ensures
        r@ == plain(Method::Put, under("users/"@, name@)),
{
    Request::plain(Method::Put, under_path("users/", name))
}

/// `DELETE /api/users/{name}`: deletes a user.
pub fn delete_user(name: &str) -> (r: Request)
    ensures
        r@ == with_context(Method::Delete, under("users/"@, name@), named("user"@, name@)),
{
    Request::with_context(Method::Delete, under_path("users/", name), named_ctx("user", name))
}

/// `GET /api/users/{user}/permissions`: the permissions of one user across
/// vhosts.
pub fn list_user_permissions(user: &str) -> (r: Request)
    ensures
        r@ == plain(Method::Get, under("users/"@, user@) + "/permissions"@),
{
    Request::plain(Method::Get, under_path("users/", user).concat("/permissions"))
}

} // verus!
