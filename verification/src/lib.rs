//! Client-side logic for a relational database's HTTP query-execution
//! gateway: authentication requests, statement/service execution requests,
//! and the asynchronous job lifecycle (status decoding, page retrieval,
//! polling, cancellation).
//!
//! The transport itself (HTTP, TLS, timers) is an external collaborator:
//! callers perform the requests and hand the status code and body text back
//! to the functions here, which build the requests and interpret the
//! responses.

pub mod auth;
pub mod bodies;
pub mod error;
pub mod job;
pub mod poll;
pub mod response;
pub mod session;
pub mod settings;
pub mod status;
pub mod strutil;
pub mod urls;
pub mod wire;
