//! Types of the `/api/exchanges` endpoints.
use vstd::prelude::*;

verus! {

/// `serde_json::Value::Object` of an empty `serde_json::Map`: the JSON
/// object `{}`. Nothing is stated of the value, which Verus sees as opaque.
#[verifier::external_body]
fn empty_json_object() -> serde_json::Value {
    serde_json::Value::Object(serde_json::Map::new())
}

/// Request body for `POST /api/exchanges/{vhost}/{name}/publish`.
#[derive(Debug)]
pub struct PublishMessage {
    /// Message properties (open-ended map).
    pub properties: serde_json::Value,
    /// Routing key the message is published with.
    pub routing_key: String,
    /// Message payload.
    pub payload: String,
    /// Encoding of `payload`: `"string"` or `"base64"`.
    pub payload_encoding: String,
}

impl PublishMessage {
    /// Create a new message with the given routing key and payload, empty
    /// properties (the JSON object `{}`), and `payload_encoding` of
    /// `"string"`.
    pub fn new(routing_key: &str, payload: &str) -> (m: Self)
        ensures
            m.routing_key@ == routing_key@,
            m.payload@ == payload@,
            m.payload_encoding@ == "string"@,
    {
        PublishMessage {
            properties: empty_json_object(),
            routing_key: String::from_str(routing_key),
            payload: String::from_str(payload),
            payload_encoding: String::from_str("string"),
        }
    }
}

/// Response of `POST /api/exchanges/{vhost}/{name}/publish`.
#[derive(Debug, Clone)]
pub struct PublishResult {
    /// Whether the message was routed to at least one queue.
    pub routed: bool,
}

} // verus!
