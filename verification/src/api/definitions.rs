//! `/api/definitions`: cluster definitions export and import.
use vstd::prelude::*;

use crate::api::{plain, under, under_path, Method, Request};

verus! {

/// `GET /api/definitions`: exports the cluster-wide definitions.
pub fn export_definitions() -> (r: Request)
    ensures
        r@ == plain(Method::Get, "definitions"@),
{
    Request::plain(Method::Get, String::from_str("definitions"))
}

/// `GET /api/definitions/{vhost}`: exports the definitions of one vhost.
pub fn export_definitions_in_vhost(vhost: &str) -> (r: Request)
    ensures
        r@ == plain(Method::Get, under("definitions/"@, vhost@)),
{
    Request::plain(Method::Get, under_path("definitions/", vhost))
}

/// `POST /api/definitions`: imports a definitions document.
pub fn import_definitions() -> (r: Request)
    ensures
        r@ == plain(Method::Post, "definitions"@),
{
    Request::plain(Method::Post, String::from_str("definitions"))
}

} // verus!
