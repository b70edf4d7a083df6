//! Server-sent events emitted while an agent responds, and their wire format.

use vstd::prelude::*;
use crate::ids::{spec_uuid_text, uuid_text};
use crate::json::{decimal_text, push_json_string, spec_decimal, spec_json_string};
use crate::tensorzero::request::opt_str_view;

verus! {

/// Server-sent event for agent responses. Identifiers are 128-bit integers.
#[derive(Debug)]
pub enum SseEvent {
    /// Stream started.
    Start { inference_id: u128, episode_id: u128, thread_id: u128 },
    /// Text content delta.
    TextDelta { text: String },
    /// Tool use started.
    ToolUseStart { id: String, name: String },
    /// Tool arguments delta.
    ToolUseDelta { id: String, arguments: String },
    /// Tool use complete, with the complete arguments.
    ToolUseComplete { id: String, arguments: String },
    /// Tool execution started.
    ToolExecutionStart { id: String, name: String },
    /// Tool execution completed.
    ToolExecutionComplete { id: String, result: String, is_error: bool },
    /// Iteration started (1-indexed).
    IterationStart { iteration: usize, max_iterations: usize },
    /// Iteration completed.
    IterationComplete { iteration: usize },
    /// Error occurred.
    Error { message: String, code: Option<String> },
    /// Stream finished successfully.
    Done { text: Option<String>, iterations: usize },
}

/// Abstract value of an [`SseEvent`].
pub enum SseView {
    Start { inference_id: u128, episode_id: u128, thread_id: u128 },
    TextDelta { text: Seq<char> },
    ToolUseStart { id: Seq<char>, name: Seq<char> },
    ToolUseDelta { id: Seq<char>, arguments: Seq<char> },
    ToolUseComplete { id: Seq<char>, arguments: Seq<char> },
    ToolExecutionStart { id: Seq<char>, name: Seq<char> },
    ToolExecutionComplete { id: Seq<char>, result: Seq<char>, is_error: bool },
    IterationStart { iteration: usize, max_iterations: usize },
    IterationComplete { iteration: usize },
    Error { message: Seq<char>, code: Option<Seq<char>> },
    Done { text: Option<Seq<char>>, iterations: usize },
}

impl View for SseEvent {
    type V = SseView;

    open spec fn view(&self) -> SseView {
        match self {
            SseEvent::Start { inference_id, episode_id, thread_id } => SseView::Start {
                inference_id: *inference_id,
                episode_id: *episode_id,
                thread_id: *thread_id,
            },
            SseEvent::TextDelta { text } => SseView::TextDelta { text: text@ },
            SseEvent::ToolUseStart { id, name } => SseView::ToolUseStart { id: id@, name: name@ },
            SseEvent::ToolUseDelta { id, arguments } => SseView::ToolUseDelta { id: id@, arguments: arguments@ },
            SseEvent::ToolUseComplete { id, arguments } => SseView::ToolUseComplete { id: id@, arguments: arguments@ },
            SseEvent::ToolExecutionStart { id, name } => SseView::ToolExecutionStart { id: id@, name: name@ },
            SseEvent::ToolExecutionComplete { id, result, is_error } => SseView::ToolExecutionComplete {
                id: id@,
                result: result@,
                is_error: *is_error,
            },
            SseEvent::IterationStart { iteration, max_iterations } => SseView::IterationStart {
                iteration: *iteration,
                max_iterations: *max_iterations,
            },
            SseEvent::IterationComplete { iteration } => SseView::IterationComplete { iteration: *iteration },
            SseEvent::Error { message, code } => SseView::Error { message: message@, code: opt_str_view(*code) },
            SseEvent::Done { text, iterations } => SseView::Done { text: opt_str_view(*text), iterations: *iterations },
        }
    }
}

/// Abstract value of a sequence of events.
pub open spec fn events_view(v: Seq<SseEvent>) -> Seq<SseView> {
    v.map_values(|e: SseEvent| e@)
}

/// A JSON string literal, or `null`.
pub open spec fn spec_json_opt_string(o: Option<Seq<char>>) -> Seq<char> {
    match o {
        Some(s) => spec_json_string(s),
        None => "null"@,
    }
}

/// `true` or `false`.
pub open spec fn spec_json_bool(b: bool) -> Seq<char> {
    if b {
        "true"@
    } else {
        "false"@
    }
}

/// The JSON text of an event: an object whose `type` names the variant in snake case,
/// followed by the variant's fields in order. Identifiers are written as UUID strings.
pub open spec fn spec_event_json(e: SseView) -> Seq<char> {
    match e {
        SseView::Start { inference_id, episode_id, thread_id } => "{\"type\":\"start\",\"inference_id\":"@
            + spec_json_string(spec_uuid_text(inference_id)) + ",\"episode_id\":"@
            + spec_json_string(spec_uuid_text(episode_id)) + ",\"thread_id\":"@
            + spec_json_string(spec_uuid_text(thread_id)) + "}"@,
        SseView::TextDelta { text } => "{\"type\":\"text_delta\",\"text\":"@ + spec_json_string(text) + "}"@,
        SseView::ToolUseStart { id, name } => "{\"type\":\"tool_use_start\",\"id\":"@ + spec_json_string(id)
            + ",\"name\":"@ + spec_json_string(name) + "}"@,
        SseView::ToolUseDelta { id, arguments } => "{\"type\":\"tool_use_delta\",\"id\":"@ + spec_json_string(id)
            + ",\"arguments\":"@ + spec_json_string(arguments) + "}"@,
        SseView::ToolUseComplete { id, arguments } => "{\"type\":\"tool_use_complete\",\"id\":"@
            + spec_json_string(id) + ",\"arguments\":"@ + spec_json_string(arguments) + "}"@,
        SseView::ToolExecutionStart { id, name } => "{\"type\":\"tool_execution_start\",\"id\":"@
            + spec_json_string(id) + ",\"name\":"@ + spec_json_string(name) + "}"@,
        SseView::ToolExecutionComplete { id, result, is_error } => "{\"type\":\"tool_execution_complete\",\"id\":"@
            + spec_json_string(id) + ",\"result\":"@ + spec_json_string(result) + ",\"is_error\":"@
            + spec_json_bool(is_error) + "}"@,
        SseView::IterationStart { iteration, max_iterations } => "{\"type\":\"iteration_start\",\"iteration\":"@
            + spec_decimal(iteration as nat) + ",\"max_iterations\":"@ + spec_decimal(max_iterations as nat) + "}"@,
        SseView::IterationComplete { iteration } => "{\"type\":\"iteration_complete\",\"iteration\":"@
            + spec_decimal(iteration as nat) + "}"@,
        SseView::Error { message, code } => "{\"type\":\"error\",\"message\":"@ + spec_json_string(message)
            + ",\"code\":"@ + spec_json_opt_string(code) + "}"@,
        SseView::Done { text, iterations } => "{\"type\":\"done\",\"text\":"@ + spec_json_opt_string(text)
            + ",\"iterations\":"@ + spec_decimal(iterations as nat) + "}"@,
    }
}

/// An SSE frame: `data: `, the payload, and a blank line.
pub open spec fn spec_sse_frame(payload: Seq<char>) -> Seq<char> {
    "data: "@ + payload + "\n\n"@
}

/// Appends a JSON string literal, or `null`.
fn push_json_opt_string(out: &mut String, o: &Option<String>)
    ensures
        final(out)@ == old(out)@ + spec_json_opt_string(opt_str_view(*o)),
{
    match o {
        Some(s) => push_json_string(out, s.as_str()),
        None => out.append("null"),
    }
}

/// Appends a JSON string literal holding the text form of an identifier.
fn push_json_uuid(out: &mut String, id: u128)
    ensures
        final(out)@ == old(out)@ + spec_json_string(spec_uuid_text(id)),
{
    let t = uuid_text(id);
    push_json_string(out, t.as_str());
}

/// Appends the decimal text of a count.
fn push_decimal(out: &mut String, n: usize)
    ensures
        final(out)@ == old(out)@ + spec_decimal(n as nat),
{
    let t = decimal_text(n as u64);
    out.append(t.as_str());
}

impl SseEvent {
    /// A start event.
    pub fn start(inference_id: u128, episode_id: u128, thread_id: u128) -> (r: Self)
        ensures
            r@ == (SseView::Start { inference_id, episode_id, thread_id }),
    {
        SseEvent::Start { inference_id, episode_id, thread_id }
    }

    /// A text delta event.
    pub fn text_delta(text: &str) -> (r: Self)
        ensures
            r@ == (SseView::TextDelta { text: text@ }),
    {
        SseEvent::TextDelta { text: text.to_string() }
    }

    /// A tool use start event.
    pub fn tool_use_start(id: &str, name: &str) -> (r: Self)
        ensures
            r@ == (SseView::ToolUseStart { id: id@, name: name@ }),
    {
        SseEvent::ToolUseStart { id: id.to_string(), name: name.to_string() }
    }

    /// A tool use delta event.
    pub fn tool_use_delta(id: &str, arguments: &str) -> (r: Self)
        ensures
            r@ == (SseView::ToolUseDelta { id: id@, arguments: arguments@ }),
    {
        SseEvent::ToolUseDelta { id: id.to_string(), arguments: arguments.to_string() }
    }

    /// A tool use complete event.
    pub fn tool_use_complete(id: &str, arguments: &str) -> (r: Self)
        ensures
            r@ == (SseView::ToolUseComplete { id: id@, arguments: arguments@ }),
    {
        SseEvent::ToolUseComplete { id: id.to_string(), arguments: arguments.to_string() }
    }

    /// A tool execution start event.
    pub fn tool_execution_start(id: &str, name: &str) -> (r: Self)
        ensures
            r@ == (SseView::ToolExecutionStart { id: id@, name: name@ }),
    {
        SseEvent::ToolExecutionStart { id: id.to_string(), name: name.to_string() }
    }

    /// A tool execution complete event.
    pub fn tool_execution_complete(id: &str, result: &str, is_error: bool) -> (r: Self)
        ensures
            r@ == (SseView::ToolExecutionComplete { id: id@, result: result@, is_error }),
    {
        SseEvent::ToolExecutionComplete { id: id.to_string(), result: result.to_string(), is_error }
    }

    /// An error event without a code.
    pub fn error(message: &str) -> (r: Self)
        ensures
            r@ == (SseView::Error { message: message@, code: None }),
    {
        SseEvent::Error { message: message.to_string(), code: None }
    }

    /// An error event with a code.
    pub fn error_with_code(message: &str, code: &str) -> (r: Self)
        ensures
            r@ == (SseView::Error { message: message@, code: Some(code@) }),
    {
        SseEvent::Error { message: message.to_string(), code: Some(code.to_string()) }
    }

    /// A done event.
    pub fn done(text: Option<String>, iterations: usize) -> (r: Self)
        ensures
            r == (SseEvent::Done { text, iterations }),
    {
        SseEvent::Done { text, iterations }
    }

    /// Whether this event ends the stream: a done or an error event.
    pub fn is_terminal(&self) -> (r: bool)
        ensures
            r <==> (self@ is Done || self@ is Error),
    {
        match self {
            SseEvent::Done { .. } | SseEvent::Error { .. } => true,
            _ => false,
        }
    }

    /// The JSON text of the event.
    pub fn to_json(&self) -> (r: String)
        ensures
            r@ == spec_event_json(self@),
    {
        let mut out = String::new();
        match self {
            SseEvent::Start { inference_id, episode_id, thread_id } => {
                out.append("{\"type\":\"start\",\"inference_id\":");
                push_json_uuid(&mut out, *inference_id);
                out.append(",\"episode_id\":");
                push_json_uuid(&mut out, *episode_id);
                out.append(",\"thread_id\":");
                push_json_uuid(&mut out, *thread_id);
                out.append("}");
            },
            SseEvent::TextDelta { text } => {
                out.append("{\"type\":\"text_delta\",\"text\":");
                push_json_string(&mut out, text.as_str());
                out.append("}");
            },
            SseEvent::ToolUseStart { id, name } => {
                out.append("{\"type\":\"tool_use_start\",\"id\":");
                push_json_string(&mut out, id.as_str());
                out.append(",\"name\":");
                push_json_string(&mut out, name.as_str());
                out.append("}");
            },
            SseEvent::ToolUseDelta { id, arguments } => {
                out.append("{\"type\":\"tool_use_delta\",\"id\":");
                push_json_string(&mut out, id.as_str());
                out.append(",\"arguments\":");
                push_json_string(&mut out, arguments.as_str());
                out.append("}");
            },
            SseEvent::ToolUseComplete { id, arguments } => {
                out.append("{\"type\":\"tool_use_complete\",\"id\":");
                push_json_string(&mut out, id.as_str());
                out.append(",\"arguments\":");
                push_json_string(&mut out, arguments.as_str());
                out.append("}");
            },
            SseEvent::ToolExecutionStart { id, name } => {
                out.append("{\"type\":\"tool_execution_start\",\"id\":");
                push_json_string(&mut out, id.as_str());
                out.append(",\"name\":");
                push_json_string(&mut out, name.as_str());
                out.append("}");
            },
            SseEvent::ToolExecutionComplete { id, result, is_error } => {
                out.append("{\"type\":\"tool_execution_complete\",\"id\":");
                push_json_string(&mut out, id.as_str());
                out.append(",\"result\":");
                push_json_string(&mut out, result.as_str());
                out.append(",\"is_error\":");
                if *is_error {
                    out.append("true");
                } else {
                    out.append("false");
                }
                out.append("}");
            },
            SseEvent::IterationStart { iteration, max_iterations } => {
                out.append("{\"type\":\"iteration_start\",\"iteration\":");
                push_decimal(&mut out, *iteration);
                out.append(",\"max_iterations\":");
                push_decimal(&mut out, *max_iterations);
                out.append("}");
            },
            SseEvent::IterationComplete { iteration } => {
                out.append("{\"type\":\"iteration_complete\",\"iteration\":");
                push_decimal(&mut out, *iteration);
                out.append("}");
            },
            SseEvent::Error { message, code } => {
                out.append("{\"type\":\"error\",\"message\":");
                push_json_string(&mut out, message.as_str());
                out.append(",\"code\":");
                push_json_opt_string(&mut out, code);
                out.append("}");
            },
            SseEvent::Done { text, iterations } => {
                out.append("{\"type\":\"done\",\"text\":");
                push_json_opt_string(&mut out, text);
                out.append(",\"iterations\":");
                push_decimal(&mut out, *iterations);
                out.append("}");
            },
        }
        assert(out@ =~= spec_event_json(self@));
        out
    }

    /// The event as an SSE frame: `data: `, its JSON text, and a blank line.
    pub fn to_sse_data(&self) -> (r: String)
        ensures
            r@ == spec_sse_frame(spec_event_json(self@)),
    {
        let json = self.to_json();
        crate::text::concat3("data: ", json.as_str(), "\n\n")
    }
}

} // verus!
