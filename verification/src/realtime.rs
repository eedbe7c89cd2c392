//! Typed data and connection settings for the realtime WebSocket API.

pub mod api;
pub mod server_event;
pub mod sip;
pub mod types;
