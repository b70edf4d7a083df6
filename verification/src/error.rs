//! Error types of the agent development kit.

use vstd::prelude::*;
use crate::ids::{spec_uuid_text, uuid_text};
use crate::json::{decimal_text, spec_decimal};
use crate::tensorzero::error::{spec_tensorzero_error_text, TensorZeroError};
use crate::text::{concat, concat3, concat4};

verus! {

/// Errors of storage operations.
#[derive(Debug)]
pub enum StorageError {
    /// Database connection error.
    Connection { message: String },
    /// Query execution error.
    Query { message: String },
    /// Record not found.
    NotFound { entity: String, id: String },
    /// Serialization error for JSON fields.
    Serialization { message: String },
    /// Migration error.
    Migration { message: String },
    /// Transaction error.
    Transaction { message: String },
}

/// The message text of a storage error.
pub open spec fn spec_storage_error_text(e: StorageError) -> Seq<char> {
    match e {
        StorageError::Connection { message } => "connection error: "@ + message@,
        StorageError::Query { message } => "query error: "@ + message@,
        StorageError::NotFound { entity, id } => "not found: "@ + entity@ + " with id "@ + id@,
        StorageError::Serialization { message } => "serialization error: "@ + message@,
        StorageError::Migration { message } => "migration error: "@ + message@,
        StorageError::Transaction { message } => "transaction error: "@ + message@,
    }
}

impl StorageError {
    /// The error for a missing row: entity `record`, id `unknown`.
    pub fn record_not_found() -> (r: Self)
        ensures
            r matches StorageError::NotFound { entity, id } && entity@ == "record"@ && id@ == "unknown"@,
    {
        StorageError::NotFound { entity: "record".to_string(), id: "unknown".to_string() }
    }

    /// The message text of the error.
    pub fn message_text(&self) -> (r: String)
        ensures
            r@ == spec_storage_error_text(*self),
    {
        match self {
            StorageError::Connection { message } => concat("connection error: ", message.as_str()),
            StorageError::Query { message } => concat("query error: ", message.as_str()),
            StorageError::NotFound { entity, id } => concat4("not found: ", entity.as_str(), " with id ", id.as_str()),
            StorageError::Serialization { message } => concat("serialization error: ", message.as_str()),
            StorageError::Migration { message } => concat("migration error: ", message.as_str()),
            StorageError::Transaction { message } => concat("transaction error: ", message.as_str()),
        }
    }
}

/// How a database call failed, as far as the storage errors tell failures apart.
#[derive(Debug)]
pub enum DatabaseFailure {
    /// A query that had to return a row returned none.
    RowNotFound,
    /// The connection settings were refused; with the reason's text.
    Configuration { message: String },
    /// Any other failure; with the error's text.
    Other { message: String },
}

impl StorageError {
    /// The storage error for a failed database call: a missing row is a not-found
    /// error for an unknown record, refused settings a connection error, anything else
    /// a query error; the messages are kept.
    pub fn from_failure(failure: DatabaseFailure) -> (r: Self)
        ensures
            match failure {
                DatabaseFailure::RowNotFound => r matches StorageError::NotFound { entity, id }
                    && entity@ == "record"@ && id@ == "unknown"@,
                DatabaseFailure::Configuration { message } => r matches StorageError::Connection { message: m }
                    && m@ == message@,
                DatabaseFailure::Other { message } => r matches StorageError::Query { message: m }
                    && m@ == message@,
            },
    {
        match failure {
            DatabaseFailure::RowNotFound => StorageError::record_not_found(),
            DatabaseFailure::Configuration { message } => StorageError::Connection { message },
            DatabaseFailure::Other { message } => StorageError::Query { message },
        }
    }
}

/// Errors of tool operations.
#[derive(Debug)]
pub enum ToolError {
    /// Tool execution failed.
    ExecutionFailed { message: String },
    /// Invalid arguments provided to the tool.
    InvalidArguments { message: String },
    /// Tool execution timed out.
    Timeout { timeout_secs: u64 },
    /// Permission denied.
    PermissionDenied { message: String },
    /// Internal tool error.
    Internal { message: String },
}

/// The message text of a tool error.
pub open spec fn spec_tool_error_text(e: ToolError) -> Seq<char> {
    match e {
        ToolError::ExecutionFailed { message } => "execution failed: "@ + message@,
        ToolError::InvalidArguments { message } => "invalid arguments: "@ + message@,
        ToolError::Timeout { timeout_secs } => "tool execution timed out after "@ + spec_decimal(timeout_secs as nat)
            + " seconds"@,
        ToolError::PermissionDenied { message } => "permission denied: "@ + message@,
        ToolError::Internal { message } => "internal error: "@ + message@,
    }
}

impl ToolError {
    /// The message text of the error.
    pub fn message_text(&self) -> (r: String)
        ensures
            r@ == spec_tool_error_text(*self),
    {
        match self {
            ToolError::ExecutionFailed { message } => concat("execution failed: ", message.as_str()),
            ToolError::InvalidArguments { message } => concat("invalid arguments: ", message.as_str()),
            ToolError::Timeout { timeout_secs } => {
                let n = decimal_text(*timeout_secs);
                concat3("tool execution timed out after ", n.as_str(), " seconds")
            },
            ToolError::PermissionDenied { message } => concat("permission denied: ", message.as_str()),
            ToolError::Internal { message } => concat("internal error: ", message.as_str()),
        }
    }
}

/// Primary error type for agent operations.
#[derive(Debug)]
pub enum AgentError {
    /// Error from storage operations.
    Storage(StorageError),
    /// Error from tool execution.
    Tool(ToolError),
    /// Tool not found by name.
    ToolNotFound { tool_name: String },
    /// Maximum iterations exceeded during the agent loop.
    MaxIterationsExceeded { max: usize },
    /// Error from inference.
    Inference { message: String, status_code: Option<u16> },
    /// Invalid configuration.
    Configuration { message: String },
    /// Serialization or deserialization error.
    Serialization { message: String },
    /// Thread not found.
    ThreadNotFound { thread_id: u128 },
    /// Stream error.
    Stream { message: String },
    /// The thread exists but may not be used by this caller.
    ThreadAccessDenied { thread_id: u128, reason: String },
    /// The message exists but may not be used in this way.
    MessageAccessDenied { message_id: u128, reason: String },
}

/// The message text of an agent error.
pub open spec fn spec_agent_error_text(e: AgentError) -> Seq<char> {
    match e {
        AgentError::Storage(s) => "storage error: "@ + spec_storage_error_text(s),
        AgentError::Tool(t) => "tool error: "@ + spec_tool_error_text(t),
        AgentError::ToolNotFound { tool_name } => "tool '"@ + tool_name@ + "' not found"@,
        AgentError::MaxIterationsExceeded { max } => "max iterations ("@ + spec_decimal(max as nat) + ") exceeded"@,
        AgentError::Inference { message, .. } => "inference failed: "@ + message@,
        AgentError::Configuration { message } => "invalid configuration: "@ + message@,
        AgentError::Serialization { message } => "serialization error: "@ + message@,
        AgentError::ThreadNotFound { thread_id } => "thread not found: "@ + spec_uuid_text(thread_id),
        AgentError::Stream { message } => "stream error: "@ + message@,
        AgentError::ThreadAccessDenied { thread_id, reason } => "access to thread "@ + spec_uuid_text(thread_id)
            + " denied: "@ + reason@,
        AgentError::MessageAccessDenied { message_id, reason } => "access to message "@ + spec_uuid_text(message_id)
            + " denied: "@ + reason@,
    }
}

impl AgentError {
    /// The agent error for a gateway error: a server error keeps its message and status
    /// code; any other error becomes an inference error carrying its message text.
    pub fn from_tensorzero(err: TensorZeroError) -> (r: Self)
        ensures
            match err {
                TensorZeroError::ServerError { status_code, message } => r matches AgentError::Inference {
                    message: m,
                    status_code: s,
                } && m@ == message@ && s == Some(status_code),
                _ => r matches AgentError::Inference { message: m, status_code: s } && m@
                    == spec_tensorzero_error_text(err) && s is None,
            },
    {
        match err {
            TensorZeroError::ServerError { status_code, message } => AgentError::Inference {
                message,
                status_code: Some(status_code),
            },
            _ => {
                let message = err.message_text();
                AgentError::Inference { message, status_code: None }
            },
        }
    }

    /// The message text of the error.
    pub fn message_text(&self) -> (r: String)
        ensures
            r@ == spec_agent_error_text(*self),
    {
        match self {
            AgentError::Storage(s) => {
                let t = s.message_text();
                concat("storage error: ", t.as_str())
            },
            AgentError::Tool(e) => {
                let t = e.message_text();
                concat("tool error: ", t.as_str())
            },
            AgentError::ToolNotFound { tool_name } => concat3("tool '", tool_name.as_str(), "' not found"),
            AgentError::MaxIterationsExceeded { max } => {
                let n = decimal_text(*max as u64);
                concat3("max iterations (", n.as_str(), ") exceeded")
            },
            AgentError::Inference { message, .. } => concat("inference failed: ", message.as_str()),
            AgentError::Configuration { message } => concat("invalid configuration: ", message.as_str()),
            AgentError::Serialization { message } => concat("serialization error: ", message.as_str()),
            AgentError::ThreadNotFound { thread_id } => {
                let id = uuid_text(*thread_id);
                concat("thread not found: ", id.as_str())
            },
            AgentError::Stream { message } => concat("stream error: ", message.as_str()),
            AgentError::ThreadAccessDenied { thread_id, reason } => {
                let id = uuid_text(*thread_id);
                concat4("access to thread ", id.as_str(), " denied: ", reason.as_str())
            },
            AgentError::MessageAccessDenied { message_id, reason } => {
                let id = uuid_text(*message_id);
                concat4("access to message ", id.as_str(), " denied: ", reason.as_str())
            },
        }
    }
}

} // verus!
