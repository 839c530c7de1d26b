//! Relay from an inbound mail-received webhook (multipart form, SendGrid
//! Inbound-Parse shaped) to one or more outbound chat-platform webhook calls.
//!
//! The library holds the request logic: the passphrase guard, the multipart
//! form decoder, the envelope resolver and the per-recipient dispatch step.
//! The surrounding binary performs the network I/O and feeds plain values in.

pub mod config;
pub mod dispatch;
pub mod errors;
pub mod form;
pub mod handler;
pub mod json;
pub mod models;
pub mod multipart;
