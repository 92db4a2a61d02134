//! Request-forwarding core of an HTTP gateway for image uploads.
//!
//! The library validates inbound payloads, frames the JSON bodies of the
//! outbound calls, carries the caller's correlation identifier through, and
//! turns each downstream outcome into the reply or the classified failure.
//! Network transport, timers and the HTTP server stay with the caller.

pub mod dispatch;
pub mod downstream;
pub mod error;
pub mod json;
pub mod laws;
pub mod payload;

pub use dispatch::{echo_path, Route, Step};
pub use downstream::{
    is_success_status, CallOutcome, ContentType, GatewayConfig, OutboundCall, Reply, Service,
    DEFAULT_TIMEOUT_SECS,
};
pub use error::GatewayError;
pub use payload::{lookup_text, FilePathRequest, ImageUrlRequest, JsonField, UploadMetadata};
