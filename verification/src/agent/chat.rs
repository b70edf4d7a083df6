//! The chat loop: inference calls alternate with tool executions until the model
//! answers without calling tools. The caller performs the gateway calls, the tool
//! executions and the storage writes; the loop decides what comes next.

use vstd::prelude::*;
use crate::agent::builder::{spec_request_built, AgentSettings};
use crate::context::convert::{convert_tz_block_to_content_block, spec_response_block};
use crate::error::AgentError;
use crate::models::content::{blocks_view, clone_blocks, BlockView, ContentBlock, ContentView, MessageContent};
use crate::models::message::{Message, MessageView, Role};
use crate::tensorzero::request::{
    input_blocks_view, input_messages_view, opt_str_view, InputBlockView, InputContentBlock,
    InputMessage, InputMessageView, MessageRole, ToolDefinition as TzToolDefinition,
};
use crate::tensorzero::response::{
    response_blocks_view, spec_concat_texts, spec_json_reformat, spec_parse_arguments, spec_tool_calls, spec_tool_name,
    ContentBlock as TzContentBlock, InferenceResponse, ResponseBlockView, ToolCallBlock, ToolCallView,
};
use crate::tools::result::{ToolResult, ToolResultView};

verus! {

/// Token usage statistics summed over a chat loop.
#[derive(Debug, Clone, Copy, Default)]
pub struct Usage {
    /// Input tokens consumed.
    pub input_tokens: u32,
    /// Output tokens generated.
    pub output_tokens: u32,
}

impl Usage {
    /// Total tokens used: input plus output.
    pub fn total_tokens(&self) -> (r: u32)
        requires
            self.input_tokens + self.output_tokens <= u32::MAX,
        ensures
            r == self.input_tokens + self.output_tokens,
    {
        self.input_tokens + self.output_tokens
    }
}

/// Response from a chat request.
#[derive(Debug)]
pub struct ChatResponse {
    /// The final text response.
    pub text: String,
    /// Inference ID of the final inference.
    pub inference_id: u128,
    /// Episode ID for the conversation.
    pub episode_id: u128,
    /// Number of iterations (inference calls) made.
    pub iterations: usize,
    /// Token usage summed over the iterations.
    pub usage: Usage,
}

impl ChatResponse {
    /// The text content.
    pub fn text(&self) -> (r: &String)
        ensures
            r == &self.text,
    {
        &self.text
    }
}

/// A chat request with thread and message lifecycle options. Identifiers are 128-bit
/// integers and metadata is JSON text.
#[derive(Debug)]
pub struct ChatRequest {
    /// Message content (text or multimodal blocks).
    pub content: MessageContent,
    /// Thread to use or create; `None` creates a new thread.
    pub thread_id: Option<u128>,
    /// User message to create with this ID, or to edit if it exists.
    pub user_message_id: Option<u128>,
    /// Optional agent slug.
    pub agent_slug: Option<String>,
    /// Optional metadata for the thread.
    pub metadata: Option<String>,
}

impl ChatRequest {
    /// A request with the given content and no other option.
    pub fn new(content: MessageContent) -> (r: Self)
        ensures
            r.content == content,
            r.thread_id is None,
            r.user_message_id is None,
            r.agent_slug is None,
            r.metadata is None,
    {
        ChatRequest { content, thread_id: None, user_message_id: None, agent_slug: None, metadata: None }
    }

    /// Set the thread ID.
    pub fn thread_id(self, id: u128) -> (r: Self)
        ensures
            r == (ChatRequest { thread_id: Some(id), ..self }),
    {
        ChatRequest { thread_id: Some(id), ..self }
    }

    /// Set the user message ID.
    pub fn user_message_id(self, id: u128) -> (r: Self)
        ensures
            r == (ChatRequest { user_message_id: Some(id), ..self }),
    {
        ChatRequest { user_message_id: Some(id), ..self }
    }

    /// Set the agent slug.
    pub fn agent_slug(self, slug: &str) -> (r: Self)
        ensures
            opt_str_view(r.agent_slug) == Some(slug@),
            r == (ChatRequest { agent_slug: r.agent_slug, ..self }),
    {
        ChatRequest { agent_slug: Some(slug.to_string()), ..self }
    }

    /// Set metadata (JSON text).
    pub fn metadata(self, metadata: String) -> (r: Self)
        ensures
            r == (ChatRequest { metadata: Some(metadata), ..self }),
    {
        ChatRequest { metadata: Some(metadata), ..self }
    }
}

impl From<String> for ChatRequest {
    fn from(message: String) -> (r: Self) {
        ChatRequest::new(MessageContent::Text(message))
    }
}

impl vstd::std_specs::convert::FromSpecImpl<String> for ChatRequest {
    open spec fn obeys_from_spec() -> bool {
        true
    }

    open spec fn from_spec(message: String) -> Self {
        ChatRequest {
            content: MessageContent::Text(message),
            thread_id: None,
            user_message_id: None,
            agent_slug: None,
            metadata: None,
        }
    }
}

/// A tool call to execute: call ID, tool name and arguments (JSON text).
#[derive(Debug)]
pub struct PendingToolCall {
    pub id: String,
    pub name: String,
    pub arguments: String,
}

/// The name a call is executed under: its tool name, or `unknown`.
pub open spec fn spec_call_name(tc: ToolCallView) -> Seq<char> {
    match spec_tool_name(tc) {
        Some(n) => n,
        None => "unknown"@,
    }
}

/// The arguments a call is executed with: its parsed arguments, or `null`.
pub open spec fn spec_call_arguments(tc: ToolCallView) -> Seq<char> {
    match spec_parse_arguments(tc) {
        Some(a) => a,
        None => "null"@,
    }
}

/// A tool call runs under its validated tool name, else its raw name, else `unknown`;
/// and with its validated arguments, else its raw arguments as JSON reads them, and
/// with `null` only when the raw arguments do not parse or there are none.
pub proof fn calls_run_with_their_name_and_arguments(tc: ToolCallView)
    ensures
        tc.name matches Some(n) ==> spec_call_name(tc) == n,
        tc.name is None && tc.raw_name is Some ==> spec_call_name(tc) == tc.raw_name->0,
        tc.name is None && tc.raw_name is None ==> spec_call_name(tc) == "unknown"@,
        tc.arguments matches Some(a) ==> spec_call_arguments(tc) == a,
        tc.arguments is None && tc.raw_arguments is Some ==> spec_call_arguments(tc) == match spec_json_reformat(tc.raw_arguments->0) {
            Some(a) => a,
            None => "null"@,
        },
        tc.arguments is None && tc.raw_arguments is None ==> spec_call_arguments(tc) == "null"@,
{
}

/// The input block that stands for a response block in the next request.
pub open spec fn spec_input_block(b: ResponseBlockView) -> InputBlockView {
    match b {
        ResponseBlockView::Text { text } => InputBlockView::Text { text },
        ResponseBlockView::ToolCall(tc) => InputBlockView::ToolCall {
            id: tc.id,
            name: spec_call_name(tc),
            arguments: spec_call_arguments(tc),
        },
    }
}

/// The assistant message that stands for a response in the next request.
pub open spec fn spec_assistant_input(blocks: Seq<ResponseBlockView>) -> InputMessageView {
    InputMessageView {
        role: MessageRole::Assistant,
        content: blocks.map_values(|b: ResponseBlockView| spec_input_block(b)),
    }
}

/// The stored block that records a tool result.
pub open spec fn spec_result_block(r: ToolResultView) -> BlockView {
    BlockView::ToolResult { tool_use_id: r.tool_call_id, name: r.tool_name, content: r.content, is_error: r.is_error }
}

/// Each tool result is recorded, in order, as a tool-result block with the result's
/// call ID, tool name and content, and with its error flag: a failed execution is
/// stored as a tool error, a successful one as a tool result.
pub proof fn result_blocks_keep_results(rs: Seq<ToolResultView>)
    ensures
        rs.map_values(|r: ToolResultView| spec_result_block(r)).len() == rs.len(),
        forall|i: int| 0 <= i < rs.len() ==> rs.map_values(|r: ToolResultView| spec_result_block(r))[i]
            == (BlockView::ToolResult {
                tool_use_id: (#[trigger] rs[i]).tool_call_id,
                name: rs[i].tool_name,
                content: rs[i].content,
                is_error: rs[i].is_error,
            }),
{
}

/// The input message that reports a tool result.
pub open spec fn spec_result_input(r: ToolResultView) -> InputMessageView {
    InputMessageView {
        role: MessageRole::User,
        content: seq![InputBlockView::ToolResult { id: r.tool_call_id, name: r.tool_name, result: r.content }],
    }
}

/// The abstract value of tool results.
pub open spec fn results_view(v: Seq<ToolResult>) -> Seq<ToolResultView> {
    v.map_values(|r: ToolResult| r@)
}

/// Plans the execution of a tool call: under its tool name (`unknown` if none) with
/// its parsed arguments (`null` if they do not parse).
pub fn plan_tool_call(tc: &ToolCallBlock) -> (r: PendingToolCall)
    ensures
        r.id@ == tc.id@,
        r.name@ == spec_call_name(tc@),
        r.arguments@ == spec_call_arguments(tc@),
{
    let name = match tc.tool_name() {
        Some(n) => n.clone(),
        None => "unknown".to_string(),
    };
    let arguments = match tc.parse_arguments() {
        Ok(a) => a,
        Err(_) => "null".to_string(),
    };
    PendingToolCall { id: tc.id.clone(), name, arguments }
}

/// The result reported for a call to a tool that is not registered.
pub fn tool_not_found(call: &PendingToolCall) -> (r: ToolResult)
    ensures
        r@ == (ToolResultView {
            tool_call_id: call.id@,
            tool_name: call.name@,
            content: "Tool '"@ + call.name@ + "' not found"@,
            is_error: true,
            data: None,
        }),
{
    let message = crate::text::concat3("Tool '", call.name.as_str(), "' not found");
    ToolResult::error(call.id.as_str(), call.name.as_str(), message.as_str())
}

/// The assistant message that stands for a response in the next request.
pub fn response_to_input_message(content: &Vec<TzContentBlock>) -> (r: InputMessage)
    ensures
        r@ == spec_assistant_input(response_blocks_view(content@)),
{
    let ghost rv = response_blocks_view(content@);
    let mut blocks: Vec<InputContentBlock> = Vec::new();
    let mut i: usize = 0;
    while i < content.len()
        invariant
            i <= content@.len(),
            rv == response_blocks_view(content@),
            input_blocks_view(blocks@) == rv.take(i as int).map_values(|b: ResponseBlockView| spec_input_block(b)),
        decreases content@.len() - i,
    {
        let ghost before = input_blocks_view(blocks@);
        let b = match &content[i] {
            TzContentBlock::Text { text } => InputContentBlock::Text { text: text.clone() },
            TzContentBlock::ToolCall(tc) => {
                let call = plan_tool_call(tc);
                InputContentBlock::ToolCall { id: call.id, name: call.name, arguments: call.arguments }
            },
        };
        assert(b@ == spec_input_block(rv[i as int]));
        blocks.push(b);
        assert(input_blocks_view(blocks@) =~= before.push(spec_input_block(rv[i as int])));
        assert(rv.take(i + 1) =~= rv.take(i as int).push(rv[i as int]));
        assert(input_blocks_view(blocks@) =~= rv.take(i + 1).map_values(|b: ResponseBlockView| spec_input_block(b)));
        i = i + 1;
    }
    assert(rv.take(i as int) =~= rv);
    InputMessage { role: MessageRole::Assistant, content: blocks }
}

/// What the chat loop asks of its caller after a response.
#[derive(Debug)]
pub enum ChatStep {
    /// Execute these tool calls, in order, and report their results.
    ExecuteTools(Vec<PendingToolCall>),
    /// The loop is over: store this assistant message and answer with this response.
    Finished { message: Message, response: ChatResponse },
}

/// State of a non-streaming chat loop.
#[derive(Debug)]
pub struct ChatLoop {
    /// Number of inference calls started.
    pub iteration: usize,
    /// The largest number of inference calls allowed.
    pub max_iterations: usize,
    /// Token usage summed over the responses.
    pub usage: Usage,
    /// Episode of the first response, shared by every later request.
    pub episode_id: Option<u128>,
    /// All content of the loop, in order: response blocks and tool results. It is
    /// stored as one assistant message at the end.
    pub accumulated: Vec<ContentBlock>,
    /// The context sent with the next request.
    pub messages: Vec<InputMessage>,
}

impl ChatLoop {
    /// A loop over the given context that allows `max_iterations` inference calls.
    pub fn new(max_iterations: usize, messages: Vec<InputMessage>) -> (r: Self)
        ensures
            r.iteration == 0,
            r.max_iterations == max_iterations,
            r.usage == (Usage { input_tokens: 0, output_tokens: 0 }),
            r.episode_id is None,
            r.accumulated@.len() == 0,
            r.messages == messages,
    {
        ChatLoop {
            iteration: 0,
            max_iterations,
            usage: Usage { input_tokens: 0, output_tokens: 0 },
            episode_id: None,
            accumulated: Vec::new(),
            messages,
        }
    }

    /// Starts an iteration: fails once `max_iterations` calls were made, otherwise
    /// counts the call and returns the request to send, with the context and the
    /// episode of the first response.
    pub fn start_iteration(&mut self, settings: &AgentSettings, tools: &Vec<TzToolDefinition>) -> (r: Result<crate::tensorzero::request::InferenceRequest, AgentError>)
        ensures
            r is Err <==> old(self).iteration >= old(self).max_iterations,
            r is Ok ==> final(self).iteration <= final(self).max_iterations,
            r matches Err(e) ==> (e matches AgentError::MaxIterationsExceeded { max } && max == old(self).max_iterations),
            r is Err ==> *final(self) == *old(self),
            r matches Ok(req) ==> {
                &&& *final(self) == (ChatLoop { iteration: (old(self).iteration + 1) as usize, ..*old(self) })
                &&& spec_request_built(*settings, input_messages_view(old(self).messages@), tools@, old(self).episode_id, false, req)
            },
    {
        if self.iteration >= self.max_iterations {
            return Err(AgentError::MaxIterationsExceeded { max: self.max_iterations });
        }
        self.iteration = self.iteration + 1;
        Ok(settings.build_request(&self.messages, tools, self.episode_id, false))
    }

    /// Takes a response: adds its usage, keeps the first episode, and records its
    /// blocks. Without tool calls the loop is over: the accumulated content becomes one
    /// assistant message of the thread. Otherwise the response joins the context and
    /// its tool calls are to be executed.
    pub fn handle_response(&mut self, thread_id: u128, response: &InferenceResponse) -> (r: ChatStep)
        requires
            response.usage matches Some(u) ==> old(self).usage.input_tokens + u.input_tokens <= u32::MAX
                && old(self).usage.output_tokens + u.output_tokens <= u32::MAX,
        ensures
            final(self).iteration == old(self).iteration,
            final(self).max_iterations == old(self).max_iterations,
            final(self).usage == match response.usage {
                Some(u) => Usage {
                    input_tokens: (old(self).usage.input_tokens + u.input_tokens) as u32,
                    output_tokens: (old(self).usage.output_tokens + u.output_tokens) as u32,
                },
                None => old(self).usage,
            },
            final(self).episode_id == Some(match old(self).episode_id {
                Some(e) => e,
                None => response.episode_id,
            }),
            blocks_view(final(self).accumulated@) == blocks_view(old(self).accumulated@)
                + response_blocks_view(response.content@).map_values(|b: ResponseBlockView| spec_response_block(b)),
            ({
                let calls = spec_tool_calls(response_blocks_view(response.content@));
                match r {
                    ChatStep::ExecuteTools(pending) => {
                        &&& calls.len() > 0
                        &&& pending@.len() == calls.len()
                        &&& forall|i: int| 0 <= i < calls.len() ==> (#[trigger] pending@[i]).id@ == calls[i].id
                            && pending@[i].name@ == spec_call_name(calls[i])
                            && pending@[i].arguments@ == spec_call_arguments(calls[i])
                        &&& input_messages_view(final(self).messages@) == input_messages_view(old(self).messages@).push(
                            spec_assistant_input(response_blocks_view(response.content@)))
                    },
                    ChatStep::Finished { message, response: resp } => {
                        &&& calls.len() == 0
                        &&& message.thread_id == thread_id
                        &&& message.role == Role::Assistant
                        &&& message.content@ == ContentView::Blocks(blocks_view(final(self).accumulated@))
                        &&& message.episode_id == final(self).episode_id
                        &&& resp.text@ == spec_concat_texts(response_blocks_view(response.content@))
                        &&& resp.inference_id == response.inference_id
                        &&& Some(resp.episode_id) == final(self).episode_id
                        &&& resp.iterations == old(self).iteration
                        &&& resp.usage == final(self).usage
                        &&& final(self).messages == old(self).messages
                    },
                }
            }),
    {
        if let Some(u) = &response.usage {
            self.usage = Usage {
                input_tokens: self.usage.input_tokens + u.input_tokens,
                output_tokens: self.usage.output_tokens + u.output_tokens,
            };
        }
        if self.episode_id.is_none() {
            self.episode_id = Some(response.episode_id);
        }
        let episode_id = match self.episode_id {
            Some(e) => e,
            None => response.episode_id,
        };
        let ghost rv = response_blocks_view(response.content@);
        let ghost acc0 = blocks_view(self.accumulated@);
        let ghost it0 = self.iteration;
        let ghost max0 = self.max_iterations;
        let ghost usage0 = self.usage;
        let ghost ep0 = self.episode_id;
        let ghost msgs0 = self.messages;
        let mut i: usize = 0;
        while i < response.content.len()
            invariant
                i <= response.content@.len(),
                self.iteration == it0,
                self.max_iterations == max0,
                self.usage == usage0,
                self.episode_id == ep0,
                self.messages == msgs0,
                rv == response_blocks_view(response.content@),
                blocks_view(self.accumulated@) == acc0 + rv.take(i as int).map_values(|b: ResponseBlockView| spec_response_block(b)),
            decreases response.content@.len() - i,
        {
            let ghost before = blocks_view(self.accumulated@);
            let b = convert_tz_block_to_content_block(&response.content[i]);
            self.accumulated.push(b);
            assert(rv.take(i + 1) =~= rv.take(i as int).push(rv[i as int]));
            assert(blocks_view(self.accumulated@) =~= before.push(spec_response_block(rv[i as int])));
            assert(blocks_view(self.accumulated@) =~= acc0 + rv.take(i + 1).map_values(|b: ResponseBlockView| spec_response_block(b)));
            i = i + 1;
        }
        assert(rv.take(i as int) =~= rv);
        let tool_calls = response.tool_calls();
        if tool_calls.len() == 0 {
            assert(tool_calls@.map_values(|t: &ToolCallBlock| t@).len() == 0);
            let text = response.text();
            let message = Message::assistant(thread_id, MessageContent::Blocks(clone_blocks(&self.accumulated)))
                .with_episode_id(episode_id);
            let resp = ChatResponse {
                text,
                inference_id: response.inference_id,
                episode_id,
                iterations: self.iteration,
                usage: self.usage,
            };
            return ChatStep::Finished { message, response: resp };
        }
        let ghost calls = spec_tool_calls(rv);
        assert(tool_calls@.map_values(|t: &ToolCallBlock| t@) == calls);
        let mut pending: Vec<PendingToolCall> = Vec::new();
        let mut j: usize = 0;
        while j < tool_calls.len()
            invariant
                j <= tool_calls@.len(),
                tool_calls@.map_values(|t: &ToolCallBlock| t@) == calls,
                pending@.len() == j,
                forall|k: int| 0 <= k < j ==> (#[trigger] pending@[k]).id@ == calls[k].id
                    && pending@[k].name@ == spec_call_name(calls[k])
                    && pending@[k].arguments@ == spec_call_arguments(calls[k]),
            decreases tool_calls@.len() - j,
        {
            assert(calls[j as int] == tool_calls@[j as int]@);
            pending.push(plan_tool_call(tool_calls[j]));
            j = j + 1;
        }
        let ghost m0 = input_messages_view(self.messages@);
        let m = response_to_input_message(&response.content);
        self.messages.push(m);
        assert(input_messages_view(self.messages@) =~= m0.push(spec_assistant_input(rv)));
        ChatStep::ExecuteTools(pending)
    }

    /// Takes the results of the executed tool calls: each is recorded in the
    /// accumulated content (as a tool result or a tool error) and joins the context as a
    /// user message.
    pub fn record_tool_results(&mut self, results: &Vec<ToolResult>)
        ensures
            final(self).iteration == old(self).iteration,
            final(self).max_iterations == old(self).max_iterations,
            final(self).usage == old(self).usage,
            final(self).episode_id == old(self).episode_id,
            blocks_view(final(self).accumulated@) == blocks_view(old(self).accumulated@)
                + results_view(results@).map_values(|r: ToolResultView| spec_result_block(r)),
            input_messages_view(final(self).messages@) == input_messages_view(old(self).messages@)
                + results_view(results@).map_values(|r: ToolResultView| spec_result_input(r)),
            final(self).accumulated@.len() == old(self).accumulated@.len() + results@.len(),
            forall|i: int| 0 <= i < results@.len() ==> (#[trigger] final(self).accumulated@[old(self).accumulated@.len() + i])@
                == (BlockView::ToolResult {
                    tool_use_id: results@[i].tool_call_id@,
                    name: results@[i].tool_name@,
                    content: results@[i].content@,
                    is_error: results@[i].is_error,
                }),
    {
        let ghost rv = results_view(results@);
        let ghost acc0 = blocks_view(self.accumulated@);
        let ghost m0 = input_messages_view(self.messages@);
        let mut i: usize = 0;
        while i < results.len()
            invariant
                i <= results@.len(),
                rv == results_view(results@),
                self.iteration == old(self).iteration,
                self.max_iterations == old(self).max_iterations,
                self.usage == old(self).usage,
                self.episode_id == old(self).episode_id,
                blocks_view(self.accumulated@) == acc0 + rv.take(i as int).map_values(|r: ToolResultView| spec_result_block(r)),
                input_messages_view(self.messages@) == m0 + rv.take(i as int).map_values(|r: ToolResultView| spec_result_input(r)),
            decreases results@.len() - i,
        {
            let r = &results[i];
            assert(rv[i as int] == r@);
            let ghost ab = blocks_view(self.accumulated@);
            let ghost am = input_messages_view(self.messages@);
            let block = if r.is_error {
                ContentBlock::tool_error(r.tool_call_id.as_str(), r.tool_name.as_str(), r.content.as_str())
            } else {
                ContentBlock::tool_result(r.tool_call_id.as_str(), r.tool_name.as_str(), r.content.as_str())
            };
            self.accumulated.push(block);
            let msg = InputMessage::tool_result(r.tool_call_id.as_str(), r.tool_name.as_str(), r.content.as_str());
            self.messages.push(msg);
            assert(rv.take(i + 1) =~= rv.take(i as int).push(rv[i as int]));
            assert(blocks_view(self.accumulated@) =~= ab.push(spec_result_block(rv[i as int])));
            assert(input_messages_view(self.messages@) =~= am.push(spec_result_input(rv[i as int])));
            assert(blocks_view(self.accumulated@) =~= acc0 + rv.take(i + 1).map_values(|r: ToolResultView| spec_result_block(r)));
            assert(input_messages_view(self.messages@) =~= m0 + rv.take(i + 1).map_values(|r: ToolResultView| spec_result_input(r)));
            i = i + 1;
        }
        assert(rv.take(i as int) =~= rv);
        proof {
            result_blocks_keep_results(rv);
            let n = old(self).accumulated@.len();
            assert forall|k: int| 0 <= k < results@.len() implies (#[trigger] self.accumulated@[n + k])@
                == (BlockView::ToolResult {
                    tool_use_id: results@[k].tool_call_id@,
                    name: results@[k].tool_name@,
                    content: results@[k].content@,
                    is_error: results@[k].is_error,
                }) by {
                assert(blocks_view(self.accumulated@)[n + k] == self.accumulated@[n + k]@);
                assert(rv[k] == results@[k]@);
            }
        }
    }
}

} // verus!
