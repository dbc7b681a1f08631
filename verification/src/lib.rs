//! Client-side core of a collaboration platform's real-time event channel and
//! device-authorization login flow: the OAuth device-code poller, the event
//! session's frame handling, the wire-schema decoders, and the error taxonomy.

pub mod api;
pub mod auth;
pub mod dto;
pub mod error;
pub mod json;
pub mod wire;

pub use self::error::Error;
