//! Results of tool executions.

use vstd::prelude::*;
use crate::tensorzero::request::opt_str_view;
use crate::tensorzero::request::clone_opt_string;

verus! {

/// What `serde_json` makes of JSON text when pretty-printing it: `None` when the text
/// is not valid JSON, otherwise the pretty-printed text of the parsed value.
pub uninterp spec fn spec_json_pretty(text: Seq<char>) -> Option<Seq<char>>;

/// Parses JSON text with `serde_json::from_str` and pretty-prints the parsed value with
/// `serde_json::to_string_pretty`.
#[verifier::external_body]
fn pretty_json(text: &str) -> (r: Option<String>)
    ensures
        opt_str_view(r) == spec_json_pretty(text@),
{
    match serde_json::from_str::<serde_json::Value>(text) {
        Ok(v) => serde_json::to_string_pretty(&v).ok(),
        Err(_) => None,
    }
}

/// Result of a tool execution.
#[derive(Debug)]
pub struct ToolResult {
    /// ID of the tool call this result is for.
    pub tool_call_id: String,
    /// Name of the tool that was called.
    pub tool_name: String,
    /// The result content.
    pub content: String,
    /// Whether the execution failed.
    pub is_error: bool,
    /// Optional structured data, as JSON text.
    pub data: Option<String>,
}

/// Abstract value of a [`ToolResult`].
pub struct ToolResultView {
    pub tool_call_id: Seq<char>,
    pub tool_name: Seq<char>,
    pub content: Seq<char>,
    pub is_error: bool,
    pub data: Option<Seq<char>>,
}

impl View for ToolResult {
    type V = ToolResultView;

    open spec fn view(&self) -> ToolResultView {
        ToolResultView {
            tool_call_id: self.tool_call_id@,
            tool_name: self.tool_name@,
            content: self.content@,
            is_error: self.is_error,
            data: opt_str_view(self.data),
        }
    }
}

impl Clone for ToolResult {
    fn clone(&self) -> (r: Self)
        ensures
            r@ == self@,
    {
        ToolResult {
            tool_call_id: self.tool_call_id.clone(),
            tool_name: self.tool_name.clone(),
            content: self.content.clone(),
            is_error: self.is_error,
            data: clone_opt_string(&self.data),
        }
    }
}

impl ToolResult {
    /// A successful result with text content.
    pub fn success(tool_call_id: &str, tool_name: &str, content: &str) -> (r: Self)
        ensures
            r@ == (ToolResultView {
                tool_call_id: tool_call_id@,
                tool_name: tool_name@,
                content: content@,
                is_error: false,
                data: None,
            }),
    {
        ToolResult {
            tool_call_id: tool_call_id.to_string(),
            tool_name: tool_name.to_string(),
            content: content.to_string(),
            is_error: false,
            data: None,
        }
    }

    /// A successful result with JSON data (JSON text): the content is the data
    /// pretty-printed, or the data text itself when it cannot be printed.
    pub fn success_json(tool_call_id: &str, tool_name: &str, data: &str) -> (r: Self)
        ensures
            r@ == (ToolResultView {
                tool_call_id: tool_call_id@,
                tool_name: tool_name@,
                content: match spec_json_pretty(data@) {
                    Some(p) => p,
                    None => data@,
                },
                is_error: false,
                data: Some(data@),
            }),
    {
        let content = match pretty_json(data) {
            Some(p) => p,
            None => data.to_string(),
        };
        ToolResult {
            tool_call_id: tool_call_id.to_string(),
            tool_name: tool_name.to_string(),
            content,
            is_error: false,
            data: Some(data.to_string()),
        }
    }

    /// A failed result carrying an error message.
    pub fn error(tool_call_id: &str, tool_name: &str, error: &str) -> (r: Self)
        ensures
            r@ == (ToolResultView {
                tool_call_id: tool_call_id@,
                tool_name: tool_name@,
                content: error@,
                is_error: true,
                data: None,
            }),
    {
        ToolResult {
            tool_call_id: tool_call_id.to_string(),
            tool_name: tool_name.to_string(),
            content: error.to_string(),
            is_error: true,
            data: None,
        }
    }

    /// Add structured data (JSON text) to the result.
    pub fn with_data(self, data: String) -> (r: Self)
        ensures
            r == (ToolResult { data: Some(data), ..self }),
    {
        ToolResult { data: Some(data), ..self }
    }

    /// Whether this is a successful result.
    pub fn is_success(&self) -> (r: bool)
        ensures
            r == !self.is_error,
    {
        !self.is_error
    }

    /// Fills an empty call ID or tool name from the executing context.
    pub fn with_default_identity(self, tool_call_id: &str, tool_name: &str) -> (r: Self)
        ensures
            r@ == (ToolResultView {
                tool_call_id: if self.tool_call_id@.len() == 0 { tool_call_id@ } else { self.tool_call_id@ },
                tool_name: if self.tool_name@.len() == 0 { tool_name@ } else { self.tool_name@ },
                ..self@
            }),
    {
        let mut r = self;
        if r.tool_call_id.as_str().is_empty() {
            r.tool_call_id = tool_call_id.to_string();
        }
        if r.tool_name.as_str().is_empty() {
            r.tool_name = tool_name.to_string();
        }
        r
    }
}

} // verus!
