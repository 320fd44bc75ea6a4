//! Response and request payload types of the RabbitMQ Management API.
use vstd::prelude::*;

pub mod cluster_name;
pub mod common;
pub mod connection;
pub mod exchange;
pub mod node;
pub mod permission;
pub mod queue;
pub mod user;

verus! {

/// `serde_json::Value`: an open-ended JSON value carried through as it is.
#[verifier::external_type_specification]
#[verifier::external_body]
pub struct ExJsonValue(serde_json::Value);

/// Response of `GET /api/whoami`: the identity the server sees for the
/// credentials used by this client.
#[derive(Debug, Clone)]
pub struct WhoAmI {
    /// Username of the authenticated user.
    pub name: String,
    /// User tags (e.g. `["administrator"]`). RabbitMQ 4.x returns a JSON
    /// array; RabbitMQ 3.12 returns a comma-separated string, read with
    /// [`common::split_tags`].
    pub tags: Vec<String>,
    /// Whether the authenticated user is an internal user (RabbitMQ 4.x
    /// only; `None` on 3.12).
    pub is_internal_user: Option<bool>,
}

} // verus!
