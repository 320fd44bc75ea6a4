use rabbitmqadmin_sdk::types::exchange::PublishMessage;
use rabbitmqadmin_sdk::types::queue::{AckMode, PayloadEncoding, QueueAction};
use rabbitmqadmin_sdk::types::user::UserCreate;

#[test]
fn queue_action_wire_strings() {
    assert_eq!(QueueAction::Sync.as_str(), "sync");
    assert_eq!(QueueAction::CancelSync.as_str(), "cancel_sync");
}

#[test]
fn ack_mode_wire_strings() {
    assert_eq!(AckMode::AckRequeueTrue.as_str(), "ack_requeue_true");
    assert_eq!(AckMode::AckRequeueFalse.as_str(), "ack_requeue_false");
    assert_eq!(AckMode::NackRequeueTrue.as_str(), "nack_requeue_true");
    assert_eq!(AckMode::RejectRequeueFalse.as_str(), "reject_requeue_false");
}

#[test]
fn payload_encoding_wire_strings() {
    assert_eq!(PayloadEncoding::Auto.as_str(), "auto");
    assert_eq!(PayloadEncoding::Base64.as_str(), "base64");
}

#[test]
fn user_create_keeps_password_and_tags() {
    let u = UserCreate::new("s3cret", "management");
    assert_eq!(u.password, "s3cret");
    assert_eq!(u.tags, "management");
}

#[test]
fn publish_message_defaults() {
    let m = PublishMessage::new("rk", "hello");
    assert_eq!(m.routing_key, "rk");
    assert_eq!(m.payload, "hello");
    assert_eq!(m.payload_encoding, "string");
    assert_eq!(m.properties, serde_json::Value::Object(serde_json::Map::new()));
}
