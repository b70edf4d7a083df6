//! Tools: definitions, execution context, results and the registry.

pub mod context;
pub mod definition;
pub mod registry;
pub mod result;

pub use context::{ToolContext, ToolContextBuilder};
pub use definition::{ToolDefinition, ToolDefinitionBuilder};
pub use registry::ToolRegistry;
pub use result::ToolResult;
