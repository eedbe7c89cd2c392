//! Typed data and streaming decoders for the versioned HTTP API.

pub mod api;
pub mod assistant;
pub mod audio;
pub mod batch;
pub mod chat_completion;
pub mod chat_completion_stream;
pub mod common;
pub mod edit;
pub mod embedding;
pub mod file;
pub mod fine_tune;
pub mod fine_tuning;
pub mod image;
pub mod message;
pub mod model;
pub mod moderation;
pub mod realtime_calls;
pub mod responses_stream;
pub mod run;
pub mod thread;
pub mod types;
