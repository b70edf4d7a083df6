//! Streaming: configuration, server-sent events and the streaming execution loop.

pub mod config;
pub mod events;
pub mod executor;
pub mod properties;

pub use config::StreamConfig;
pub use events::SseEvent;
