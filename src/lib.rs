//! A typed client for the AGiXT agent-orchestration HTTP service.
//!
//! The library holds everything that decides what goes over the wire and what
//! comes back: the client configuration (base URI, authorization token), one
//! request description per endpoint, and the projection of a reply envelope
//! onto the single field that each endpoint returns. Sending the request and
//! turning JSON text into [`json::JsonValue`] is left to the caller.
pub mod client;
pub mod error;
pub mod json;
pub mod prompt;
pub mod reply;
pub mod request;
