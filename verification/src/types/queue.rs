//! Request options of the `/api/queues` endpoints.
use vstd::prelude::*;

verus! {

/// Action for `POST /api/queues/{vhost}/{name}/actions`.
#[derive(Debug, Clone, Copy)]
pub enum QueueAction {
    /// Synchronise the queue (for quorum / classic mirrored queues).
    Sync,
    /// Cancel an in-progress synchronisation.
    CancelSync,
}

impl QueueAction {
    /// Wire string for the `"action"` field of the request body.
    pub fn as_str(&self) -> (s: &'static str)
        ensures
            s@ == match self {
                QueueAction::Sync => "sync"@,
                QueueAction::CancelSync => "cancel_sync"@,
            },
    {
        match self {
            QueueAction::Sync => "sync",
            QueueAction::CancelSync => "cancel_sync",
        }
    }
}

/// Acknowledgement mode for `POST /api/queues/{vhost}/{name}/get`.
#[derive(Debug, Clone, Copy)]
pub enum AckMode {
    /// Acknowledge the message, requeueing it.
    AckRequeueTrue,
    /// Acknowledge the message without requeueing (message removed).
    AckRequeueFalse,
    /// Negatively acknowledge, requeueing the message.
    NackRequeueTrue,
    /// Reject the message without requeueing.
    RejectRequeueFalse,
}

impl AckMode {
    /// Wire string for the `"ackmode"` field of the request body.
    pub fn as_str(&self) -> (s: &'static str)
        ensures
            s@ == match self {
                AckMode::AckRequeueTrue => "ack_requeue_true"@,
                AckMode::AckRequeueFalse => "ack_requeue_false"@,
                AckMode::NackRequeueTrue => "nack_requeue_true"@,
                AckMode::RejectRequeueFalse => "reject_requeue_false"@,
            },
    {
        match self {
            AckMode::AckRequeueTrue => "ack_requeue_true",
            AckMode::AckRequeueFalse => "ack_requeue_false",
            AckMode::NackRequeueTrue => "nack_requeue_true",
            AckMode::RejectRequeueFalse => "reject_requeue_false",
        }
    }
}

/// Payload encoding for messages fetched via the HTTP API.
#[derive(Debug, Clone, Copy)]
pub enum PayloadEncoding {
    /// Return the payload as a string if it is valid UTF-8, else base64.
    Auto,
    /// Always return the payload base64-encoded.
    Base64,
}

impl PayloadEncoding {
    /// Wire string for the `"encoding"` field of the request body.
    pub fn as_str(&self) -> (s: &'static str)
        ensures
            s@ == match self {
                PayloadEncoding::Auto => "auto"@,
                PayloadEncoding::Base64 => "base64"@,
            },
    {
        match self {
            PayloadEncoding::Auto => "auto",
            PayloadEncoding::Base64 => "base64",
        }
    }
}

} // verus!
