//! Data models: threads, messages, message content and file metadata.

pub mod content;
pub mod file_metadata;
pub mod message;
pub mod thread;

pub use content::{ContentBlock, ImageSource, MessageContent};
pub use file_metadata::FileMetadata;
pub use message::{Message, Role, ToolResultMessageBuilder};
pub use thread::{Thread, ThreadOptions};
