//! Verified core of an SDK for the RabbitMQ Management HTTP API.
//!
//! The library computes everything a call to the Management API consists
//! of, short of sending it: the normalized base URL and the HTTP Basic
//! `Authorization` header ([`client`]), the percent-encoded request paths,
//! query pairs and not-found contexts of every endpoint ([`api`]), and the
//! mapping of an HTTP status and body to a result ([`error`]).
use vstd::prelude::*;

pub mod api;
pub mod base64;
pub mod client;
pub mod encoding;
pub mod error;
pub mod pagination;
pub mod text;
pub mod types;

pub use client::{Client, ClientBuilder};
pub use error::{Error, Result};
pub use pagination::{Paginated, PaginationQuery};

verus! {

/// The default RabbitMQ vhost, `"/"`.
pub const DEFAULT_VHOST: &'static str = "/";

} // verus!
