//! Error type of the client, and the mapping from HTTP responses to it.
use vstd::prelude::*;

use crate::text::decimal_string;
use reqwest::Error as TransportError;
use serde_json::Error as JsonError;

verus! {

/// `reqwest::Error`, carried by [`Error::Transport`].
#[verifier::external_type_specification]
#[verifier::external_body]
pub struct ExTransportError(TransportError);

/// `serde_json::Error`, carried by [`Error::Deserialize`].
#[verifier::external_type_specification]
#[verifier::external_body]
pub struct ExJsonError(JsonError);

/// Errors returned by the RabbitMQ Management API client.
#[derive(Debug)]
pub enum Error {
    /// HTTP-level failure (DNS, connection, TLS, timeout, ...).
    Transport(TransportError),
    /// The server returned a non-2xx status other than 404.
    Api {
        /// HTTP status code returned by the server.
        status: u16,
        /// Response body / reason returned by the server.
        reason: String,
    },
    /// The server returned 404 for the requested resource.
    NotFound(String),
    /// The response body could not be deserialized into the expected type;
    /// the raw `body` is kept for debugging.
    Deserialize {
        /// The underlying serde error.
        source: JsonError,
        /// The raw response body that failed to deserialize.
        body: String,
    },
    /// The base URL or a constructed request URL was invalid.
    InvalidUrl(String),
}

/// Result alias using this crate's [`Error`] type.
pub type Result<T> = core::result::Result<T, Error>;

/// The text of `reqwest::Error`'s `Display` impl. Nothing is stated of it:
/// it describes a transport failure in reqwest's own words.
#[verifier::external_body]
fn transport_text(e: &TransportError) -> String {
    e.to_string()
}

/// The text of `serde_json::Error`'s `Display` impl. Nothing is stated of
/// it: it describes the parse failure in serde_json's own words.
#[verifier::external_body]
fn json_error_text(e: &JsonError) -> String {
    e.to_string()
}

/// Prefix of the message of [`Error::Transport`].
pub open spec fn transport_prefix() -> Seq<char> {
    "HTTP transport error: "@
}

/// Prefix of the message of [`Error::Deserialize`].
pub open spec fn deserialize_prefix() -> Seq<char> {
    "failed to deserialize response body: "@
}

impl Error {
    /// Human-readable description of the error (what `Display` prints):
    /// the transport and deserialization variants show the underlying
    /// error, never the raw body.
    pub fn message(&self) -> (res: String)
        ensures
            match self {
                Error::Api { status, reason } => res@ == "RabbitMQ API error "@
                    + crate::text::decimal(*status as nat) + ": "@ + reason@,
                Error::NotFound(what) => res@ == "resource not found: "@ + what@,
                Error::InvalidUrl(what) => res@ == "invalid URL: "@ + what@,
                Error::Transport(_) => res@.len() >= transport_prefix().len()
                    && res@.take(transport_prefix().len() as int) == transport_prefix(),
                Error::Deserialize { .. } => res@.len() >= deserialize_prefix().len()
                    && res@.take(deserialize_prefix().len() as int) == deserialize_prefix(),
            },
    {
        match self {
            Error::Transport(e) => {
                let s = String::from_str("HTTP transport error: ");
                let t = transport_text(e);
                let r = s.concat(t.as_str());
                proof {
                    assert(r@.take(transport_prefix().len() as int) =~= transport_prefix());
                }
                r
            },
            Error::Api { status, reason } => {
                let s = String::from_str("RabbitMQ API error ");
                let d = decimal_string(*status as u64);
                s.concat(d.as_str()).concat(": ").concat(reason.as_str())
            },
            Error::NotFound(what) => String::from_str("resource not found: ").concat(what.as_str()),
            Error::Deserialize { source, .. } => {
                let s = String::from_str("failed to deserialize response body: ");
                let t = json_error_text(source);
                let r = s.concat(t.as_str());
                proof {
                    assert(r@.take(deserialize_prefix().len() as int) =~= deserialize_prefix());
                }
                r
            },
            Error::InvalidUrl(what) => String::from_str("invalid URL: ").concat(what.as_str()),
        }
    }
}

/// Whether `status` is a 2xx (success) status.
pub open spec fn is_success(status: u16) -> bool {
    200 <= status && status <= 299
}

/// Exactly the 2xx statuses, `200` to `299`, are successes.
pub proof fn lemma_success_is_2xx(status: u16)
    ensures
        is_success(status) <==> 200 <= status && status <= 299,
{
}

/// Map an HTTP response (its status and body text) to a [`Result`] of the
/// body, applying the crate's error-mapping rules:
///
/// * 2xx → `Ok(body)`
/// * 404 → [`Error::NotFound`] carrying the body
/// * any other status → [`Error::Api`] with the status and the body as
///   the reason (a failing health check answers 503, so it surfaces as
///   `Error::Api { status: 503, .. }` with the failure JSON in `reason`).
pub fn handle_response(status: u16, body: String) -> (res: Result<String>)
    ensures
        is_success(status) ==> (res matches Ok(b) && b@ == body@),
        status == 404 ==> (res matches Err(Error::NotFound(m)) && m@ == body@),
        !is_success(status) && status != 404 ==> (res matches Err(
            Error::Api { status: s, reason },
        ) && s == status && reason@ == body@),
        200 <= status && status <= 299 ==> (res matches Ok(b) && b@ == body@),
        (status < 200 || status > 299) && status != 404 ==> (res matches Err(
            Error::Api { status: s, reason },
        ) && s == status && reason@ == body@),
        res is Ok <==> 200 <= status && status <= 299,
{
    if 200 <= status && status <= 299 {
        Ok(body)
    } else if status == 404 {
        Err(Error::NotFound(body))
    } else {
        Err(Error::Api { status, reason: body })
    }
}

/// Prefix the message of an [`Error::NotFound`] with `ctx`
/// (e.g. `"node 'rabbit@host'"`) so callers can tell which resource was
/// missing; the server's body is kept after `": "`. Every other error is
/// returned unchanged.
pub fn nf(e: Error, ctx: &str) -> (res: Error)
    ensures
        match e {
            Error::NotFound(m) => res matches Error::NotFound(r) && r@ == ctx@ + ": "@ + m@,
            _ => res == e,
        },
{
    match e {
        Error::NotFound(m) => Error::NotFound(String::from_str(ctx).concat(": ").concat(m.as_str())),
        other => other,
    }
}

} // verus!
