//! Blockchain event streams: event payload models, the filters that
//! subscribers send, and the decisions of the servers that deliver events.
pub mod json;
pub mod text;
pub mod filter;
pub mod event;
pub mod events;
pub mod modules;
pub mod redis_stream;
pub mod client;
pub mod launcher;
