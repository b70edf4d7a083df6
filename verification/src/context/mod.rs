//! Conversation context: configuration, filtering of message history, and conversion
//! of stored messages to gateway input.

pub mod config;
pub mod convert;
pub mod filter;
pub mod properties;

pub use config::{ContextConfig, ToolsContextConfig};
pub use convert::{convert_message_to_input, convert_messages_to_input, convert_response_to_message_content};
pub use filter::ContextFilter;
