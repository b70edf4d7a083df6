//! The streaming execution loop. Each iteration streams one inference response: the
//! chunks' blocks are gathered per gateway block ID while events are emitted, and the
//! finished response either ends the loop or asks for tool executions. The caller
//! performs the gateway calls, the tool executions and the storage writes.
//!
//! The events emitted are those of [`SseEvent`]: start, text and tool-use deltas, tool
//! executions, iterations, errors and the final `Done`. None of them reports a block
//! count or token totals; the loop keeps those in [`StreamLoop`] for its caller to read.

use vstd::prelude::*;
use crate::agent::builder::{spec_request_built, AgentSettings};
use crate::agent::chat::{
    response_to_input_message, result_blocks_keep_results, results_view, spec_assistant_input, spec_result_block, spec_result_input,
    PendingToolCall,
};
use crate::context::convert::{convert_tz_block_to_content_block, spec_response_block};
use crate::error::AgentError;
use crate::models::content::{blocks_view, BlockView, ContentBlock, ContentView, MessageContent};
use crate::models::message::{Message, Role};
use crate::stream::events::{events_view, SseEvent, SseView};
use crate::tensorzero::request::{
    input_messages_view, opt_str_view, clone_opt_string, InputMessage, ToolDefinition as TzToolDefinition,
};
use crate::tensorzero::response::{
    reformat_json, response_blocks_view, spec_arguments_string, spec_concat_texts, spec_json_reformat,
    spec_tool_calls, spec_tool_name, ContentBlock as TzContentBlock, ResponseBlockView, StreamContentBlock,
    StreamEvent, ToolCallBlock, ToolCallView,
};
use crate::tools::result::{ToolResult, ToolResultView};

verus! {

/// Gathers the deltas of one content block while a response streams.
#[derive(Debug)]
pub struct ContentBlockBuilder {
    /// Identifier of the block.
    pub block_id: String,
    /// Text gathered so far, for a text (or thought) block.
    pub text: Option<String>,
    /// Tool call ID, for a tool call block.
    pub tool_call_id: Option<String>,
    /// Tool name, for a tool call block.
    pub tool_call_name: Option<String>,
    /// Raw arguments gathered so far, for a tool call block.
    pub tool_call_arguments: Option<String>,
    /// Whether the block was reported complete.
    pub complete: bool,
}

/// Abstract value of a [`ContentBlockBuilder`].
pub struct BuilderView {
    pub block_id: Seq<char>,
    pub text: Option<Seq<char>>,
    pub tool_call_id: Option<Seq<char>>,
    pub tool_call_name: Option<Seq<char>>,
    pub tool_call_arguments: Option<Seq<char>>,
    pub complete: bool,
}

impl View for ContentBlockBuilder {
    type V = BuilderView;

    open spec fn view(&self) -> BuilderView {
        BuilderView {
            block_id: self.block_id@,
            text: opt_str_view(self.text),
            tool_call_id: opt_str_view(self.tool_call_id),
            tool_call_name: opt_str_view(self.tool_call_name),
            tool_call_arguments: opt_str_view(self.tool_call_arguments),
            complete: self.complete,
        }
    }
}

/// A text appended to an optional text: nothing happens to an absent text.
pub open spec fn spec_append(o: Option<Seq<char>>, s: Seq<char>) -> Option<Seq<char>> {
    match o {
        Some(t) => Some(t + s),
        None => None,
    }
}

/// The response block a finished builder stands for: its text, or its tool call with
/// the arguments parsed when they parse; nothing for an incomplete tool call.
pub open spec fn spec_builder_block(b: BuilderView) -> Option<ResponseBlockView> {
    match b.text {
        Some(t) => Some(ResponseBlockView::Text { text: t }),
        None => if b.tool_call_id is Some && b.tool_call_name is Some && b.tool_call_arguments is Some {
            Some(ResponseBlockView::ToolCall(ToolCallView {
                id: b.tool_call_id->0,
                name: b.tool_call_name,
                arguments: spec_json_reformat(b.tool_call_arguments->0),
                raw_name: b.tool_call_name,
                raw_arguments: b.tool_call_arguments,
            }))
        } else {
            None
        },
    }
}

/// Appends `s` to an optional string, if present.
fn append_opt(o: &mut Option<String>, s: &str)
    ensures
        opt_str_view(*final(o)) == spec_append(opt_str_view(*old(o)), s@),
{
    if let Some(t) = o {
        t.append(s);
    }
}

impl ContentBlockBuilder {
    /// A builder for a text block with initial text.
    pub fn text(block_id: String, initial: String) -> (r: Self)
        ensures
            r@ == (BuilderView {
                block_id: block_id@,
                text: Some(initial@),
                tool_call_id: None,
                tool_call_name: None,
                tool_call_arguments: None,
                complete: false,
            }),
    {
        ContentBlockBuilder {
            block_id,
            text: Some(initial),
            tool_call_id: None,
            tool_call_name: None,
            tool_call_arguments: None,
            complete: false,
        }
    }

    /// A builder for a tool call block with initial arguments.
    pub fn tool_call(block_id: String, tool_call_id: String, name: String, arguments: String) -> (r: Self)
        ensures
            r@ == (BuilderView {
                block_id: block_id@,
                text: None,
                tool_call_id: Some(tool_call_id@),
                tool_call_name: Some(name@),
                tool_call_arguments: Some(arguments@),
                complete: false,
            }),
    {
        ContentBlockBuilder {
            block_id,
            text: None,
            tool_call_id: Some(tool_call_id),
            tool_call_name: Some(name),
            tool_call_arguments: Some(arguments),
            complete: false,
        }
    }

    /// Appends a text delta (to a text block only).
    pub fn append_text(&mut self, text: &str)
        ensures
            final(self)@ == (BuilderView { text: spec_append(old(self)@.text, text@), ..old(self)@ }),
    {
        append_opt(&mut self.text, text);
    }

    /// Appends an arguments delta (to a tool call block only).
    pub fn append_arguments(&mut self, args: &str)
        ensures
            final(self)@ == (BuilderView {
                tool_call_arguments: spec_append(old(self)@.tool_call_arguments, args@),
                ..old(self)@
            }),
    {
        append_opt(&mut self.tool_call_arguments, args);
    }

    /// The response block this builder stands for.
    pub fn build(&self) -> (r: Option<TzContentBlock>)
        ensures
            match r {
                Some(b) => spec_builder_block(self@) == Some(b@),
                None => spec_builder_block(self@) is None,
            },
    {
        if let Some(text) = &self.text {
            return Some(TzContentBlock::Text { text: text.clone() });
        }
        match (&self.tool_call_id, &self.tool_call_name, &self.tool_call_arguments) {
            (Some(id), Some(name), Some(arguments)) => {
                let parsed = match reformat_json(arguments.as_str()) {
                    Ok(p) => Some(p),
                    Err(_) => None,
                };
                Some(TzContentBlock::ToolCall(ToolCallBlock {
                    id: id.clone(),
                    name: Some(name.clone()),
                    arguments: parsed,
                    raw_name: Some(name.clone()),
                    raw_arguments: Some(arguments.clone()),
                }))
            },
            _ => None,
        }
    }
}

/// Abstract value of a [`StreamContentBlock`].
pub enum StreamBlockView {
    Text { id: Seq<char>, text: Seq<char> },
    ToolCall { id: Seq<char>, raw_name: Seq<char>, raw_arguments: Seq<char> },
    Thought { id: Seq<char>, text: Option<Seq<char>>, signature: Option<Seq<char>> },
}

impl View for StreamContentBlock {
    type V = StreamBlockView;

    open spec fn view(&self) -> StreamBlockView {
        match self {
            StreamContentBlock::Text { id, text } => StreamBlockView::Text { id: id@, text: text@ },
            StreamContentBlock::ToolCall { id, raw_name, raw_arguments } => StreamBlockView::ToolCall {
                id: id@,
                raw_name: raw_name@,
                raw_arguments: raw_arguments@,
            },
            StreamContentBlock::Thought { id, text, signature } => StreamBlockView::Thought {
                id: id@,
                text: opt_str_view(*text),
                signature: opt_str_view(*signature),
            },
        }
    }
}

/// The gateway ID of a streamed block.
pub open spec fn spec_stream_block_id(b: StreamBlockView) -> Seq<char> {
    match b {
        StreamBlockView::Text { id, .. } => id,
        StreamBlockView::ToolCall { id, .. } => id,
        StreamBlockView::Thought { id, .. } => id,
    }
}

/// The builders gathered so far, keyed by gateway block ID.
pub open spec fn entries_view(v: Seq<(String, ContentBlockBuilder)>) -> Seq<(Seq<char>, BuilderView)> {
    v.map_values(|e: (String, ContentBlockBuilder)| (e.0@, e.1@))
}

/// Whether a builder exists for the key.
pub open spec fn spec_has_key(e: Seq<(Seq<char>, BuilderView)>, key: Seq<char>) -> bool {
    exists|i: int| 0 <= i < e.len() && (#[trigger] e[i]).0 == key
}

/// Whether no two builders share a key.
pub open spec fn spec_keys_unique(e: Seq<(Seq<char>, BuilderView)>) -> bool {
    forall|i: int, j: int| 0 <= i < j < e.len() ==> (#[trigger] e[i]).0 != (#[trigger] e[j]).0
}

/// Whether a streamed block starts a new builder.
pub open spec fn spec_starts_block(e: Seq<(Seq<char>, BuilderView)>, b: StreamBlockView) -> bool {
    !spec_has_key(e, spec_stream_block_id(b)) && match b {
        StreamBlockView::Thought { text, signature, .. } => text is Some || signature is Some,
        _ => true,
    }
}

/// The builder a streamed block starts.
pub open spec fn spec_new_builder(b: StreamBlockView) -> BuilderView {
    match b {
        StreamBlockView::Text { id, text } => BuilderView {
            block_id: id,
            text: Some(text),
            tool_call_id: None,
            tool_call_name: None,
            tool_call_arguments: None,
            complete: false,
        },
        StreamBlockView::ToolCall { id, raw_name, raw_arguments } => BuilderView {
            block_id: id,
            text: None,
            tool_call_id: Some(id),
            tool_call_name: Some(raw_name),
            tool_call_arguments: Some(raw_arguments),
            complete: false,
        },
        StreamBlockView::Thought { id, text, .. } => BuilderView {
            block_id: id,
            text: Some(match text {
                Some(t) => t,
                None => Seq::empty(),
            }),
            tool_call_id: None,
            tool_call_name: None,
            tool_call_arguments: None,
            complete: false,
        },
    }
}

/// A builder after a delta for its key: text and thought text are appended to the
/// text, tool call arguments to the arguments.
pub open spec fn spec_extend_builder(old: BuilderView, b: StreamBlockView) -> BuilderView {
    match b {
        StreamBlockView::Text { text, .. } => BuilderView { text: spec_append(old.text, text), ..old },
        StreamBlockView::ToolCall { raw_arguments, .. } => BuilderView {
            tool_call_arguments: spec_append(old.tool_call_arguments, raw_arguments),
            ..old
        },
        StreamBlockView::Thought { text, .. } => match text {
            Some(t) => BuilderView { text: spec_append(old.text, t), ..old },
            None => old,
        },
    }
}

/// The builders after a streamed block: the builder with its key is extended, or a
/// new builder is appended.
pub open spec fn spec_apply_block(e: Seq<(Seq<char>, BuilderView)>, b: StreamBlockView) -> Seq<(Seq<char>, BuilderView)> {
    let key = spec_stream_block_id(b);
    if spec_has_key(e, key) {
        let i = choose|i: int| 0 <= i < e.len() && (#[trigger] e[i]).0 == key;
        e.update(i, (key, spec_extend_builder(e[i].1, b)))
    } else if spec_starts_block(e, b) {
        e.push((key, spec_new_builder(b)))
    } else {
        e
    }
}

/// The events a streamed block emits: non-empty text deltas; for a new tool call its
/// start and its first non-empty arguments; later non-empty arguments deltas.
pub open spec fn spec_block_events(e: Seq<(Seq<char>, BuilderView)>, b: StreamBlockView) -> Seq<SseView> {
    match b {
        StreamBlockView::Text { text, .. } => if text.len() > 0 {
            seq![SseView::TextDelta { text }]
        } else {
            Seq::empty()
        },
        StreamBlockView::ToolCall { id, raw_name, raw_arguments } => {
            let start = if spec_has_key(e, id) {
                Seq::empty()
            } else {
                seq![SseView::ToolUseStart { id, name: raw_name }]
            };
            start + if raw_arguments.len() > 0 {
                seq![SseView::ToolUseDelta { id, arguments: raw_arguments }]
            } else {
                Seq::empty()
            }
        },
        StreamBlockView::Thought { .. } => Seq::empty(),
    }
}

/// The abstract values of streamed blocks.
pub open spec fn stream_blocks_view(v: Seq<StreamContentBlock>) -> Seq<StreamBlockView> {
    v.map_values(|b: StreamContentBlock| b@)
}

/// The builders, the events and the number of started builders after the blocks of a
/// chunk are applied in order.
pub open spec fn spec_apply_blocks(
    e: Seq<(Seq<char>, BuilderView)>,
    blocks: Seq<StreamBlockView>,
) -> (Seq<(Seq<char>, BuilderView)>, Seq<SseView>, nat)
    decreases blocks.len(),
{
    if blocks.len() == 0 {
        (e, Seq::empty(), 0)
    } else {
        let prev = spec_apply_blocks(e, blocks.drop_last());
        let b = blocks.last();
        (
            spec_apply_block(prev.0, b),
            prev.1 + spec_block_events(prev.0, b),
            prev.2 + if spec_starts_block(prev.0, b) { 1nat } else { 0nat },
        )
    }
}

/// The index of the builder with the given key.
fn find_builder(entries: &Vec<(String, ContentBlockBuilder)>, key: &str) -> (r: Option<usize>)
    ensures
        match r {
            Some(i) => i < entries@.len() && entries@[i as int].0@ == key@,
            None => !spec_has_key(entries_view(entries@), key@),
        },
{
    let ghost ev = entries_view(entries@);
    let mut i: usize = 0;
    while i < entries.len()
        invariant
            i <= entries@.len(),
            ev == entries_view(entries@),
            forall|j: int| 0 <= j < i ==> (#[trigger] ev[j]).0 != key@,
        decreases entries@.len() - i,
    {
        assert(ev[i as int].0 == entries@[i as int].0@);
        if crate::tensorzero::client::str_equals(entries[i].0.as_str(), key) {
            return Some(i);
        }
        i = i + 1;
    }
    None
}

/// Applies a streamed block to the builders and emits its events; returns whether a new
/// builder was started.
pub fn apply_block(entries: &mut Vec<(String, ContentBlockBuilder)>, block: &StreamContentBlock, events: &mut Vec<SseEvent>) -> (started: bool)
    requires
        spec_keys_unique(entries_view(old(entries)@)),
    ensures
        spec_keys_unique(entries_view(final(entries)@)),
        entries_view(final(entries)@) == spec_apply_block(entries_view(old(entries)@), block@),
        events_view(final(events)@) == events_view(old(events)@) + spec_block_events(entries_view(old(entries)@), block@),
        started == spec_starts_block(entries_view(old(entries)@), block@),
{
    let ghost e0 = entries_view(entries@);
    let ghost ev0 = events_view(events@);
    let key = block.id();
    let pos = find_builder(entries, key.as_str());
    let ghost kv = spec_stream_block_id(block@);
    assert(key@ == kv);
    match pos {
        Some(i) => {
            proof {
                assert(e0[i as int].0 == kv);
                assert(spec_has_key(e0, kv));
                let c = choose|c: int| 0 <= c < e0.len() && (#[trigger] e0[c]).0 == kv;
                assert(c == i);
            }
            let mut entry = entries.remove(i);
            let ghost old_b = entry.1@;
            match block {
                StreamContentBlock::Text { text, .. } => {
                    entry.1.append_text(text.as_str());
                    if !text.as_str().is_empty() {
                        events.push(SseEvent::text_delta(text.as_str()));
                    }
                },
                StreamContentBlock::ToolCall { id, raw_arguments, .. } => {
                    entry.1.append_arguments(raw_arguments.as_str());
                    if !raw_arguments.as_str().is_empty() {
                        events.push(SseEvent::tool_use_delta(id.as_str(), raw_arguments.as_str()));
                    }
                },
                StreamContentBlock::Thought { text, .. } => {
                    if let Some(t) = text {
                        entry.1.append_text(t.as_str());
                    }
                },
            }
            assert(entry.1@ == spec_extend_builder(old_b, block@));
            entries.insert(i, entry);
            assert(entries_view(entries@) =~= e0.update(i as int, (kv, spec_extend_builder(e0[i as int].1, block@))));
            assert(events_view(events@) =~= ev0 + spec_block_events(e0, block@));
            false
        },
        None => {
            let started = match block {
                StreamContentBlock::Text { id, text } => {
                    entries.push((key.clone(), ContentBlockBuilder::text(key.clone(), text.clone())));
                    if !text.as_str().is_empty() {
                        events.push(SseEvent::text_delta(text.as_str()));
                    }
                    true
                },
                StreamContentBlock::ToolCall { id, raw_name, raw_arguments } => {
                    events.push(SseEvent::tool_use_start(id.as_str(), raw_name.as_str()));
                    entries.push((key.clone(), ContentBlockBuilder::tool_call(key.clone(), id.clone(), raw_name.clone(), raw_arguments.clone())));
                    if !raw_arguments.as_str().is_empty() {
                        events.push(SseEvent::tool_use_delta(id.as_str(), raw_arguments.as_str()));
                    }
                    true
                },
                StreamContentBlock::Thought { text, signature, .. } => {
                    if text.is_some() || signature.is_some() {
                        let initial = match text {
                            Some(t) => t.clone(),
                            None => String::new(),
                        };
                        entries.push((key.clone(), ContentBlockBuilder::text(key.clone(), initial)));
                        true
                    } else {
                        false
                    }
                },
            };
            proof {
                if started {
                    assert(entries_view(entries@) =~= e0.push((kv, spec_new_builder(block@))));
                    assert forall|a: int, b: int| 0 <= a < b < entries_view(entries@).len()
                        implies (#[trigger] entries_view(entries@)[a]).0 != (#[trigger] entries_view(entries@)[b]).0 by {
                        if b == e0.len() {
                            assert(entries_view(entries@)[a] == e0[a]);
                        } else {
                            assert(entries_view(entries@)[a] == e0[a]);
                            assert(entries_view(entries@)[b] == e0[b]);
                        }
                    }
                } else {
                    assert(entries_view(entries@) =~= e0);
                }
            }
            assert(events_view(events@) =~= ev0 + spec_block_events(e0, block@));
            started
        },
    }
}

} // verus!

verus! {

/// The response blocks that the finished builders stand for, in order.
pub open spec fn spec_built_blocks(e: Seq<(Seq<char>, BuilderView)>) -> Seq<ResponseBlockView>
    decreases e.len(),
{
    if e.len() == 0 {
        Seq::empty()
    } else {
        spec_built_blocks(e.drop_last()) + crate::context::convert::opt_seq(spec_builder_block(e.last().1))
    }
}

/// The completion events of the builders not yet reported complete: one for each tool
/// call, with its complete arguments.
pub open spec fn spec_completion_events(e: Seq<(Seq<char>, BuilderView)>) -> Seq<SseView>
    decreases e.len(),
{
    if e.len() == 0 {
        Seq::empty()
    } else {
        let b = e.last().1;
        spec_completion_events(e.drop_last()) + if !b.complete && b.text is None && b.tool_call_id is Some
            && b.tool_call_name is Some && b.tool_call_arguments is Some {
            seq![SseView::ToolUseComplete { id: b.tool_call_id->0, arguments: b.tool_call_arguments->0 }]
        } else {
            Seq::empty()
        }
    }
}

/// The name and arguments text of a streamed tool call, as it is executed: its tool
/// name (`unknown` if none), and its arguments string parsed as JSON (`null` if it does
/// not parse).
pub open spec fn spec_stream_call_arguments(tc: ToolCallView) -> Seq<char> {
    match spec_json_reformat(spec_arguments_string(tc)) {
        Some(a) => a,
        None => "null"@,
    }
}

/// What the streaming loop asks of its caller after a response.
#[derive(Debug)]
pub enum StreamStep {
    /// Store the assistant message, emit the events, execute the tool calls in order and
    /// report their results.
    ExecuteTools { message: Message, calls: Vec<PendingToolCall>, events: Vec<SseEvent> },
    /// Store the assistant message and emit the events; the loop is over.
    Finished { message: Message, events: Vec<SseEvent> },
}

/// State of a streaming chat loop.
#[derive(Debug)]
pub struct StreamLoop {
    /// Thread the loop answers in.
    pub thread_id: u128,
    /// Number of inference calls started.
    pub iteration: usize,
    /// The largest number of inference calls allowed.
    pub max_iterations: usize,
    /// Whether the start event was emitted.
    pub started: bool,
    /// Number of content blocks started over the whole loop. No event carries it: it
    /// is kept for the caller.
    pub block_count: usize,
    /// Input tokens summed over the finished responses. No event carries it: it is
    /// kept for the caller.
    pub input_tokens: u32,
    /// Output tokens summed over the finished responses. No event carries it: it is
    /// kept for the caller.
    pub output_tokens: u32,
    /// The context sent with the next request.
    pub messages: Vec<InputMessage>,
    /// Builders of the response being streamed, keyed by gateway block ID, in the
    /// order the IDs first appeared.
    pub builders: Vec<(String, ContentBlockBuilder)>,
    /// Inference ID of the response being streamed (zero before its first chunk).
    pub inference_id: u128,
    /// Episode ID of the response being streamed (zero before its first chunk).
    pub episode_id: u128,
    /// Input tokens last reported by the response being streamed.
    pub chunk_input_tokens: u32,
    /// Output tokens last reported by the response being streamed.
    pub chunk_output_tokens: u32,
}

impl StreamLoop {
    /// Whether the loop's builders have distinct keys.
    pub open spec fn wf(&self) -> bool {
        spec_keys_unique(entries_view(self.builders@))
    }

    /// A streaming loop in a thread over the given context.
    pub fn new(thread_id: u128, max_iterations: usize, messages: Vec<InputMessage>) -> (r: Self)
        ensures
            r.wf(),
            r.thread_id == thread_id,
            r.iteration == 0,
            r.max_iterations == max_iterations,
            !r.started,
            r.block_count == 0,
            r.input_tokens == 0,
            r.output_tokens == 0,
            r.messages == messages,
            r.builders@.len() == 0,
    {
        StreamLoop {
            thread_id,
            iteration: 0,
            max_iterations,
            started: false,
            block_count: 0,
            input_tokens: 0,
            output_tokens: 0,
            messages,
            builders: Vec::new(),
            inference_id: 0,
            episode_id: 0,
            chunk_input_tokens: 0,
            chunk_output_tokens: 0,
        }
    }

    /// Starts an iteration: once `max_iterations` calls were made it fails with the
    /// error and the error event to emit; otherwise it counts the call, clears the
    /// response state and returns the streaming request to send.
    pub fn start_iteration(&mut self, settings: &AgentSettings, tools: &Vec<TzToolDefinition>) -> (r: Result<crate::tensorzero::request::InferenceRequest, (AgentError, SseEvent)>)
        requires
            old(self).wf(),
        ensures
            final(self).wf(),
            r is Err <==> old(self).iteration >= old(self).max_iterations,
            r is Ok ==> final(self).iteration <= final(self).max_iterations,
            r matches Err((e, ev)) ==> (e matches AgentError::MaxIterationsExceeded { max } && max == old(self).max_iterations
                && ev@ == (SseView::Error { message: "Max iterations exceeded"@, code: Some("max_iterations"@) })),
            r is Err ==> *final(self) == *old(self),
            r matches Ok(req) ==> {
                &&& final(self).iteration == old(self).iteration + 1
                &&& final(self).builders@.len() == 0
                &&& final(self).inference_id == 0 && final(self).episode_id == 0
                &&& final(self).chunk_input_tokens == 0 && final(self).chunk_output_tokens == 0
                &&& final(self).messages == old(self).messages
                &&& final(self).started == old(self).started
                &&& final(self).block_count == old(self).block_count
                &&& final(self).input_tokens == old(self).input_tokens
                &&& final(self).output_tokens == old(self).output_tokens
                &&& final(self).thread_id == old(self).thread_id
                &&& final(self).max_iterations == old(self).max_iterations
                &&& spec_request_built(*settings, input_messages_view(old(self).messages@), tools@, None, true, req)
            },
    {
        if self.iteration >= self.max_iterations {
            let ev = SseEvent::error_with_code("Max iterations exceeded", "max_iterations");
            return Err((AgentError::MaxIterationsExceeded { max: self.max_iterations }, ev));
        }
        self.iteration = self.iteration + 1;
        self.builders = Vec::new();
        self.inference_id = 0;
        self.episode_id = 0;
        self.chunk_input_tokens = 0;
        self.chunk_output_tokens = 0;
        Ok(settings.build_request(&self.messages, tools, None, true))
    }

    /// Takes a streamed chunk: records its IDs and usage, emits the start event on the
    /// loop's first chunk, and applies each of its blocks in order.
    pub fn on_chunk(&mut self, chunk: &StreamEvent) -> (events: Vec<SseEvent>)
        requires
            old(self).wf(),
            old(self).block_count + chunk.content@.len() <= usize::MAX,
        ensures
            final(self).wf(),
            final(self).inference_id == chunk.inference_id,
            final(self).episode_id == chunk.episode_id,
            final(self).started,
            chunk.usage matches Some(u) ==> final(self).chunk_input_tokens == u.input_tokens
                && final(self).chunk_output_tokens == u.output_tokens,
            chunk.usage is None ==> final(self).chunk_input_tokens == old(self).chunk_input_tokens
                && final(self).chunk_output_tokens == old(self).chunk_output_tokens,
            ({
                let applied = spec_apply_blocks(entries_view(old(self).builders@), stream_blocks_view(chunk.content@));
                &&& entries_view(final(self).builders@) == applied.0
                &&& events_view(events@) == (if old(self).started {
                    Seq::empty()
                } else {
                    seq![SseView::Start {
                        inference_id: chunk.inference_id,
                        episode_id: chunk.episode_id,
                        thread_id: old(self).thread_id,
                    }]
                }) + applied.1
                &&& final(self).block_count == old(self).block_count + applied.2
            }),
            final(self).iteration == old(self).iteration,
            final(self).max_iterations == old(self).max_iterations,
            final(self).thread_id == old(self).thread_id,
            final(self).messages == old(self).messages,
            final(self).input_tokens == old(self).input_tokens,
            final(self).output_tokens == old(self).output_tokens,
    {
        self.inference_id = chunk.inference_id;
        self.episode_id = chunk.episode_id;
        if let Some(u) = &chunk.usage {
            self.chunk_input_tokens = u.input_tokens;
            self.chunk_output_tokens = u.output_tokens;
        }
        let mut events: Vec<SseEvent> = Vec::new();
        if !self.started {
            events.push(SseEvent::start(chunk.inference_id, chunk.episode_id, self.thread_id));
            self.started = true;
        }
        let ghost first = events_view(events@);
        let ghost bc0 = self.block_count;
        let ghost e0 = entries_view(self.builders@);
        let ghost bv = stream_blocks_view(chunk.content@);
        let mut i: usize = 0;
        while i < chunk.content.len()
            invariant
                i <= chunk.content@.len(),
                bv == stream_blocks_view(chunk.content@),
                self.wf(),
                ({
                    let applied = spec_apply_blocks(e0, bv.take(i as int));
                    &&& entries_view(self.builders@) == applied.0
                    &&& events_view(events@) == first + applied.1
                    &&& self.block_count == bc0 + applied.2
                    &&& applied.2 <= i
                }),
                bc0 + chunk.content@.len() <= usize::MAX,
                first == (if old(self).started {
                    Seq::empty()
                } else {
                    seq![SseView::Start {
                        inference_id: chunk.inference_id,
                        episode_id: chunk.episode_id,
                        thread_id: old(self).thread_id,
                    }]
                }),
                e0 == entries_view(old(self).builders@),
                bc0 == old(self).block_count,
                self.inference_id == chunk.inference_id,
                self.episode_id == chunk.episode_id,
                self.started,
                chunk.usage matches Some(u) ==> self.chunk_input_tokens == u.input_tokens
                    && self.chunk_output_tokens == u.output_tokens,
                chunk.usage is None ==> self.chunk_input_tokens == old(self).chunk_input_tokens
                    && self.chunk_output_tokens == old(self).chunk_output_tokens,
                self.iteration == old(self).iteration,
                self.max_iterations == old(self).max_iterations,
                self.thread_id == old(self).thread_id,
                self.messages == old(self).messages,
                self.input_tokens == old(self).input_tokens,
                self.output_tokens == old(self).output_tokens,
            decreases chunk.content@.len() - i,
        {
            let ghost before = events_view(events@);
            assert(bv.take(i + 1).drop_last() =~= bv.take(i as int));
            assert(bv.take(i + 1).last() == chunk.content@[i as int]@);
            let started = apply_block(&mut self.builders, &chunk.content[i], &mut events);
            assert(events_view(events@) =~= first + spec_apply_blocks(e0, bv.take(i + 1)).1);
            if started {
                self.block_count = self.block_count + 1;
            }
            i = i + 1;
        }
        assert(bv.take(i as int) =~= bv);
        events
    }

    /// The event that reports an error of the event stream.
    pub fn stream_error_event(message: &str) -> (r: SseEvent)
        ensures
            r@ == (SseView::Error { message: message@, code: Some("stream_error"@) }),
    {
        SseEvent::error_with_code(message, "stream_error")
    }

    /// Finishes the streamed response: reports the tool calls complete, adds the
    /// response's usage to the totals, and returns the response blocks and the events.
    pub fn finish_response(&mut self) -> (r: (Vec<TzContentBlock>, Vec<SseEvent>))
        requires
            old(self).wf(),
            old(self).input_tokens + old(self).chunk_input_tokens <= u32::MAX,
            old(self).output_tokens + old(self).chunk_output_tokens <= u32::MAX,
        ensures
            final(self).wf(),
            response_blocks_view(r.0@) == spec_built_blocks(entries_view(old(self).builders@)),
            events_view(r.1@) == spec_completion_events(entries_view(old(self).builders@)),
            final(self).input_tokens == old(self).input_tokens + old(self).chunk_input_tokens,
            final(self).output_tokens == old(self).output_tokens + old(self).chunk_output_tokens,
            final(self).iteration == old(self).iteration,
            final(self).max_iterations == old(self).max_iterations,
            final(self).thread_id == old(self).thread_id,
            final(self).messages == old(self).messages,
            final(self).episode_id == old(self).episode_id,
            final(self).inference_id == old(self).inference_id,
            final(self).builders@.len() == 0,
    {
        let ghost e = entries_view(self.builders@);
        let mut content: Vec<TzContentBlock> = Vec::new();
        let mut events: Vec<SseEvent> = Vec::new();
        let mut i: usize = 0;
        while i < self.builders.len()
            invariant
                i <= self.builders@.len(),
                e == entries_view(self.builders@),
                response_blocks_view(content@) == spec_built_blocks(e.take(i as int)),
                events_view(events@) == spec_completion_events(e.take(i as int)),
            decreases self.builders@.len() - i,
        {
            let b = &self.builders[i].1;
            assert(e[i as int].1 == b@);
            assert(e.take(i + 1).drop_last() =~= e.take(i as int));
            let ghost cv = response_blocks_view(content@);
            let ghost evv = events_view(events@);
            if !b.complete && b.text.is_none() {
                match (&b.tool_call_id, &b.tool_call_name, &b.tool_call_arguments) {
                    (Some(id), Some(_), Some(args)) => {
                        events.push(SseEvent::tool_use_complete(id.as_str(), args.as_str()));
                    },
                    _ => {},
                }
            }
            match b.build() {
                Some(block) => {
                    content.push(block);
                },
                None => {},
            }
            assert(response_blocks_view(content@) =~= cv + crate::context::convert::opt_seq(spec_builder_block(b@)));
            assert(events_view(events@) =~= spec_completion_events(e.take(i + 1)));
            i = i + 1;
        }
        assert(e.take(i as int) =~= e);
        self.input_tokens = self.input_tokens + self.chunk_input_tokens;
        self.output_tokens = self.output_tokens + self.chunk_output_tokens;
        self.builders = Vec::new();
        (content, events)
    }

    /// Takes a finished response. Its blocks become an assistant message of the thread
    /// with the response's episode. Without tool calls the loop is over and emits the
    /// done event (with the response text, if any). Otherwise the response joins the
    /// context, and each tool call is to be executed under its tool name with its
    /// arguments parsed, after an execution-start event.
    pub fn after_response(&mut self, content: &Vec<TzContentBlock>) -> (r: StreamStep)
        ensures
            final(self).iteration == old(self).iteration,
            final(self).max_iterations == old(self).max_iterations,
            final(self).thread_id == old(self).thread_id,
            final(self).builders == old(self).builders,
            final(self).started == old(self).started,
            final(self).block_count == old(self).block_count,
            final(self).input_tokens == old(self).input_tokens,
            final(self).output_tokens == old(self).output_tokens,
            ({
                let rv = response_blocks_view(content@);
                let calls = spec_tool_calls(rv);
                let stored = ContentView::Blocks(rv.map_values(|b: ResponseBlockView| spec_response_block(b)));
                match r {
                    StreamStep::Finished { message, events } => {
                        &&& calls.len() == 0
                        &&& message.thread_id == old(self).thread_id
                        &&& message.role == Role::Assistant
                        &&& message.content@ == stored
                        &&& message.episode_id == Some(old(self).episode_id)
                        &&& events_view(events@) == seq![SseView::Done {
                            text: if spec_concat_texts(rv).len() > 0 { Some(spec_concat_texts(rv)) } else { None },
                            iterations: old(self).iteration,
                        }]
                        &&& final(self).messages == old(self).messages
                    },
                    StreamStep::ExecuteTools { message, calls: pending, events } => {
                        &&& calls.len() > 0
                        &&& message.thread_id == old(self).thread_id
                        &&& message.role == Role::Assistant
                        &&& message.content@ == stored
                        &&& message.episode_id == Some(old(self).episode_id)
                        &&& pending@.len() == calls.len()
                        &&& events@.len() == calls.len()
                        &&& forall|i: int| 0 <= i < calls.len() ==> {
                            &&& (#[trigger] pending@[i]).id@ == calls[i].id
                            &&& pending@[i].name@ == crate::agent::chat::spec_call_name(calls[i])
                            &&& pending@[i].arguments@ == spec_stream_call_arguments(calls[i])
                            &&& match spec_json_reformat(spec_arguments_string(calls[i])) {
                                Some(a) => pending@[i].arguments@ == a,
                                None => pending@[i].arguments@ == "null"@,
                            }
                            &&& events@[i]@ == (SseView::ToolExecutionStart {
                                id: calls[i].id,
                                name: crate::agent::chat::spec_call_name(calls[i]),
                            })
                        }
                        &&& input_messages_view(final(self).messages@) == input_messages_view(old(self).messages@).push(
                            spec_assistant_input(rv))
                    },
                }
            }),
    {
        let ghost rv = response_blocks_view(content@);
        let mut stored: Vec<ContentBlock> = Vec::new();
        let mut i: usize = 0;
        while i < content.len()
            invariant
                i <= content@.len(),
                rv == response_blocks_view(content@),
                blocks_view(stored@) == rv.take(i as int).map_values(|b: ResponseBlockView| spec_response_block(b)),
            decreases content@.len() - i,
        {
            let ghost before = blocks_view(stored@);
            stored.push(convert_tz_block_to_content_block(&content[i]));
            assert(rv.take(i + 1) =~= rv.take(i as int).push(rv[i as int]));
            assert(blocks_view(stored@) =~= before.push(spec_response_block(rv[i as int])));
            assert(blocks_view(stored@) =~= rv.take(i + 1).map_values(|b: ResponseBlockView| spec_response_block(b)));
            i = i + 1;
        }
        assert(rv.take(i as int) =~= rv);
        let message = Message::assistant(self.thread_id, MessageContent::Blocks(stored)).with_episode_id(self.episode_id);
        let ghost calls = spec_tool_calls(rv);
        let mut pending: Vec<PendingToolCall> = Vec::new();
        let mut events: Vec<SseEvent> = Vec::new();
        let mut text = String::new();
        let mut j: usize = 0;
        while j < content.len()
            invariant
                j <= content@.len(),
                rv == response_blocks_view(content@),
                text@ == spec_concat_texts(rv.take(j as int)),
                pending@.len() == spec_tool_calls(rv.take(j as int)).len(),
                events@.len() == pending@.len(),
                forall|k: int| 0 <= k < pending@.len() ==> {
                    let c = spec_tool_calls(rv.take(j as int))[k];
                    &&& (#[trigger] pending@[k]).id@ == c.id
                    &&& pending@[k].name@ == crate::agent::chat::spec_call_name(c)
                    &&& pending@[k].arguments@ == spec_stream_call_arguments(c)
                    &&& events@[k]@ == (SseView::ToolExecutionStart { id: c.id, name: crate::agent::chat::spec_call_name(c) })
                },
            decreases content@.len() - j,
        {
            assert(rv.take(j + 1).drop_last() =~= rv.take(j as int));
            assert(rv.take(j + 1).last() == content@[j as int]@);
            match &content[j] {
                TzContentBlock::Text { text: t } => {
                    text.append(t.as_str());
                },
                TzContentBlock::ToolCall(tc) => {
                    let name = match tc.tool_name() {
                        Some(n) => n.clone(),
                        None => "unknown".to_string(),
                    };
                    let raw = tc.arguments_string();
                    let arguments = match reformat_json(raw.as_str()) {
                        Ok(a) => a,
                        Err(_) => "null".to_string(),
                    };
                    events.push(SseEvent::tool_execution_start(tc.id.as_str(), name.as_str()));
                    pending.push(PendingToolCall { id: tc.id.clone(), name, arguments });
                },
            }
            j = j + 1;
        }
        assert(rv.take(j as int) =~= rv);
        if pending.len() == 0 {
            let final_text = if text.as_str().is_empty() {
                None
            } else {
                Some(text)
            };
            let mut done: Vec<SseEvent> = Vec::new();
            done.push(SseEvent::done(final_text, self.iteration));
            assert(events_view(done@) =~= seq![SseView::Done {
                text: if spec_concat_texts(rv).len() > 0 { Some(spec_concat_texts(rv)) } else { None },
                iterations: self.iteration,
            }]);
            return StreamStep::Finished { message, events: done };
        }
        let ghost m0 = input_messages_view(self.messages@);
        self.messages.push(response_to_input_message(content));
        assert(input_messages_view(self.messages@) =~= m0.push(spec_assistant_input(rv)));
        StreamStep::ExecuteTools { message, calls: pending, events }
    }

    /// Takes the results of the executed tool calls: they become one user message of the
    /// thread (tool results or tool errors, in order), each emits an
    /// execution-complete event, and each joins the context.
    pub fn record_tool_results(&mut self, results: &Vec<ToolResult>) -> (r: (Message, Vec<SseEvent>))
        ensures
            r.0.thread_id == old(self).thread_id,
            r.0.role == Role::User,
            r.0.content@ == ContentView::Blocks(results_view(results@).map_values(|x: ToolResultView| spec_result_block(x))),
            r.0.episode_id is None,
            r.0.content@ matches ContentView::Blocks(bs) && bs.len() == results@.len()
                && forall|i: int| 0 <= i < results@.len() ==> #[trigger] bs[i] == (BlockView::ToolResult {
                    tool_use_id: results@[i].tool_call_id@,
                    name: results@[i].tool_name@,
                    content: results@[i].content@,
                    is_error: results@[i].is_error,
                }),
            events_view(r.1@) == results_view(results@).map_values(|x: ToolResultView| SseView::ToolExecutionComplete {
                id: x.tool_call_id,
                result: x.content,
                is_error: x.is_error,
            }),
            input_messages_view(final(self).messages@) == input_messages_view(old(self).messages@)
                + results_view(results@).map_values(|x: ToolResultView| spec_result_input(x)),
            final(self).iteration == old(self).iteration,
            final(self).max_iterations == old(self).max_iterations,
            final(self).thread_id == old(self).thread_id,
            final(self).builders == old(self).builders,
            final(self).started == old(self).started,
            final(self).block_count == old(self).block_count,
            final(self).input_tokens == old(self).input_tokens,
            final(self).output_tokens == old(self).output_tokens,
            final(self).episode_id == old(self).episode_id,
    {
        let ghost rv = results_view(results@);
        let ghost m0 = input_messages_view(self.messages@);
        let mut blocks: Vec<ContentBlock> = Vec::new();
        let mut events: Vec<SseEvent> = Vec::new();
        let mut i: usize = 0;
        while i < results.len()
            invariant
                i <= results@.len(),
                rv == results_view(results@),
                blocks_view(blocks@) == rv.take(i as int).map_values(|x: ToolResultView| spec_result_block(x)),
                events_view(events@) == rv.take(i as int).map_values(|x: ToolResultView| SseView::ToolExecutionComplete {
                    id: x.tool_call_id,
                    result: x.content,
                    is_error: x.is_error,
                }),
                input_messages_view(self.messages@) == m0 + rv.take(i as int).map_values(|x: ToolResultView| spec_result_input(x)),
                self.iteration == old(self).iteration,
                self.max_iterations == old(self).max_iterations,
                self.thread_id == old(self).thread_id,
                self.builders == old(self).builders,
                self.started == old(self).started,
                self.block_count == old(self).block_count,
                self.input_tokens == old(self).input_tokens,
                self.output_tokens == old(self).output_tokens,
                self.episode_id == old(self).episode_id,
            decreases results@.len() - i,
        {
            let r = &results[i];
            assert(rv[i as int] == r@);
            let ghost bb = blocks_view(blocks@);
            let ghost eb = events_view(events@);
            let ghost mb = input_messages_view(self.messages@);
            let block = if r.is_error {
                ContentBlock::tool_error(r.tool_call_id.as_str(), r.tool_name.as_str(), r.content.as_str())
            } else {
                ContentBlock::tool_result(r.tool_call_id.as_str(), r.tool_name.as_str(), r.content.as_str())
            };
            blocks.push(block);
            events.push(SseEvent::tool_execution_complete(r.tool_call_id.as_str(), r.content.as_str(), r.is_error));
            self.messages.push(InputMessage::tool_result(r.tool_call_id.as_str(), r.tool_name.as_str(), r.content.as_str()));
            assert(rv.take(i + 1) =~= rv.take(i as int).push(rv[i as int]));
            assert(blocks_view(blocks@) =~= bb.push(spec_result_block(rv[i as int])));
            assert(events_view(events@) =~= eb.push(SseView::ToolExecutionComplete {
                id: rv[i as int].tool_call_id,
                result: rv[i as int].content,
                is_error: rv[i as int].is_error,
            }));
            assert(input_messages_view(self.messages@) =~= mb.push(spec_result_input(rv[i as int])));
            i = i + 1;
        }
        assert(rv.take(i as int) =~= rv);
        proof {
            result_blocks_keep_results(rv);
            assert forall|k: int| 0 <= k < results@.len() implies (#[trigger] blocks@[k])@ == (BlockView::ToolResult {
                tool_use_id: results@[k].tool_call_id@,
                name: results@[k].tool_name@,
                content: results@[k].content@,
                is_error: results@[k].is_error,
            }) by {
                assert(blocks_view(blocks@)[k] == blocks@[k]@);
                assert(rv[k] == results@[k]@);
            }
        }
        let message = Message::new(self.thread_id, Role::User, MessageContent::Blocks(blocks));
        (message, events)
    }
}

} // verus!
