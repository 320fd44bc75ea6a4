//! Types of the `/api/users` endpoints.
use vstd::prelude::*;

verus! {

/// A user, as returned by `GET /api/users` and `GET /api/users/{name}`.
#[derive(Debug)]
pub struct UserInfo {
    /// Name of the user.
    pub name: String,
    /// User tags (RabbitMQ 4.x sends a JSON array, RabbitMQ 3.12 a
    /// comma-separated string, read with
    /// [`crate::types::common::split_tags`]).
    pub tags: Vec<String>,
    /// Password hashing algorithm the user's password is stored with.
    pub hashing_algorithm: Option<String>,
    /// Hash of the user's password, when the server sends it.
    pub password_hash: Option<String>,
    /// Per-user limits (open-ended JSON), when the server sends them.
    pub limits: Option<serde_json::Value>,
}

/// Request body for `PUT /api/users/{name}`: creates or updates a user.
#[derive(Debug, Clone)]
pub struct UserCreate {
    /// Password of the user.
    pub password: String,
    /// Comma-separated list of user tags (e.g. `"management"`).
    pub tags: String,
}

impl UserCreate {
    /// Create a new [`UserCreate`] with the given password and
    /// comma-separated tags.
    pub fn new(password: &str, tags: &str) -> (u: Self)
        ensures
            u.password@ == password@,
            u.tags@ == tags@,
    {
        UserCreate { password: String::from_str(password), tags: String::from_str(tags) }
    }
}

} // verus!
