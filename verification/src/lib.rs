//! Client-side building blocks for a streaming LLM HTTP API.
//!
//! The heart of the crate is the incremental Server-Sent-Events decoder: a
//! growing text buffer fed arbitrarily-cut transport chunks, from which
//! complete frames are split off, parsed into events, and classified into
//! text deltas, tool-call deltas, generic named events, or the terminal
//! sentinel. The frame machinery and its central guarantee — the events do
//! not depend on where the transport cuts the bytes — live in [`sse`]; the
//! two decoders, one per streaming endpoint, live under [`v1`]. Around them
//! stand the typed request and response data of the REST endpoints and of
//! the realtime WebSocket sessions.
//!
//! The HTTP and WebSocket transport itself stays outside the crate: a caller
//! feeds the decoders raw byte chunks and pulls classified events.

pub mod realtime;
pub mod sse;
pub mod v1;
