//! The agent: settings, the chat loop that alternates inference and tool execution,
//! and the thread and message lifecycle decisions.

pub mod builder;
pub mod chat;
pub mod lifecycle;

pub use builder::{AgentSettings, ModelSpec};
pub use chat::{ChatLoop, ChatRequest, ChatResponse, ChatStep, PendingToolCall, Usage};
