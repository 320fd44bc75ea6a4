//! `/api/parameters` endpoints (runtime parameters).
use vstd::prelude::*;

use crate::api::{
    named, named_ctx, plain, under, under2, under2_path, under3, under3_path, under_path,
    with_context, Method, Request,
};

verus! {

/// `parameter '{name}' of component '{component}' in vhost '{vhost}'`.
pub open spec fn parameter_context(component: Seq<char>, vhost: Seq<char>, name: Seq<char>) -> Seq<char> {
    named("parameter"@, name) + " of component '"@ + component + "' in vhost '"@ + vhost + "'"@
}

fn parameter_ctx(component: &str, vhost: &str, name: &str) -> (r: String)
    ensures
        r@ == parameter_context(component@, vhost@, name@),
{
    named_ctx("parameter", name).concat(" of component '").concat(component).concat(
        "' in vhost '",
    ).concat(vhost).concat("'")
}

/// `GET /api/parameters`, or `GET /api/parameters/{component}` for the
/// parameters of one component (e.g. `federation-upstream`, `shovel`).
pub fn list_parameters(component: Option<&str>) -> (r: Request)
    ensures
        match component {
            Some(c) => r@ == plain(Method::Get, under("parameters/"@, c@)),
            None => r@ == plain(Method::Get, "parameters"@),
        },
{
    match component {
        Some(c) => Request::plain(Method::Get, under_path("parameters/", c)),
        None => Request::plain(Method::Get, String::from_str("parameters")),
    }
}

/// `GET /api/parameters/{component}/{vhost}`: the parameters of a
/// component within one vhost.
pub fn list_parameters_in_vhost(component: &str, vhost: &str) -> (r: Request)
    ensures
        r@ == plain(Method::Get, under2("parameters/"@, component@, vhost@)),
{
    Request::plain(Method::Get, under2_path("parameters/", component, vhost))
}

/// `GET /api/parameters/{component}/{vhost}/{name}`: one parameter.
pub fn get_parameter(component: &str, vhost: &str, name: &str) -> (r: Request)
    ensures
        r@ == with_context(
            Method::Get,
            under3("parameters/"@, component@, vhost@, name@),
            parameter_context(component@, vhost@, name@),
        ),
{
    Request::with_context(
        Method::Get,
        under3_path("parameters/", component, vhost, name),
        parameter_ctx(component, vhost, name),
    )
}

/// `PUT /api/parameters/{component}/{vhost}/{name}`: creates or updates a
/// parameter (the value is sent as `{"value": ...}`).
pub fn set_parameter(component: &str, vhost: &str, name: &str) -> (r: Request)
    ensures
        r@ == plain(Method::Put, under3("parameters/"@, component@, vhost@, name@)),
{
    Request::plain(Method::Put, under3_path("parameters/", component, vhost, name))
}

/// `DELETE /api/parameters/{component}/{vhost}/{name}`: deletes a
/// parameter.
pub fn delete_parameter(component: &str, vhost: &str, name: &str) -> (r: Request)
    ensures
        r@ == with_context(
            Method::Delete,
            under3("parameters/"@, component@, vhost@, name@),
            parameter_context(component@, vhost@, name@),
        ),
{
    Request::with_context(
        Method::Delete,
        under3_path("parameters/", component, vhost, name),
        parameter_ctx(component, vhost, name),
    )
}

} // verus!
