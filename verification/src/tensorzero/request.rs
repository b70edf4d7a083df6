use vstd::prelude::*;
use crate::tensorzero::error::TensorZeroError;

verus! {

/// Which tools the model may or must call.
#[derive(Debug)]
pub enum ToolChoice {
    /// Let the model decide whether to use tools.
    Auto,
    /// Force the model to use a specific tool.
    Tool(String),
    /// Prevent the model from using any tools (sent on the wire as `none`).
    Off,
    /// Require the model to use at least one tool.
    Required,
}

/// Abstract value of a [`ToolChoice`].
pub enum ToolChoiceView {
    Auto,
    Tool(Seq<char>),
    Off,
    Required,
}

impl View for ToolChoice {
    type V = ToolChoiceView;

    open spec fn view(&self) -> ToolChoiceView {
        match self {
            ToolChoice::Auto => ToolChoiceView::Auto,
            ToolChoice::Tool(name) => ToolChoiceView::Tool(name@),
            ToolChoice::Off => ToolChoiceView::Off,
            ToolChoice::Required => ToolChoiceView::Required,
        }
    }
}

impl Clone for ToolChoice {
    fn clone(&self) -> (r: Self)
        ensures
            r@ == self@,
    {
        match self {
            ToolChoice::Auto => ToolChoice::Auto,
            ToolChoice::Tool(name) => ToolChoice::Tool(name.clone()),
            ToolChoice::Off => ToolChoice::Off,
            ToolChoice::Required => ToolChoice::Required,
        }
    }
}

impl Default for ToolChoice {
    fn default() -> (r: Self)
        ensures
            r@ == ToolChoiceView::Auto,
    {
        ToolChoice::Auto
    }
}

} // verus!

verus! {

/// Role of a message sender on the wire.
#[derive(Debug, Clone, Copy, PartialEq, Eq, Structural)]
pub enum MessageRole {
    /// User message.
    User,
    /// Assistant (model) message.
    Assistant,
}

/// A content block in an input message. JSON payloads are carried as JSON text.
#[derive(Debug)]
pub enum InputContentBlock {
    /// Text content.
    Text { text: String },
    /// Tool call from the assistant; `arguments` is JSON text.
    ToolCall { id: String, name: String, arguments: String },
    /// Tool result from execution.
    ToolResult { id: String, name: String, result: String },
}

/// Abstract value of an [`InputContentBlock`].
pub enum InputBlockView {
    Text { text: Seq<char> },
    ToolCall { id: Seq<char>, name: Seq<char>, arguments: Seq<char> },
    ToolResult { id: Seq<char>, name: Seq<char>, result: Seq<char> },
}

impl View for InputContentBlock {
    type V = InputBlockView;

    open spec fn view(&self) -> InputBlockView {
        match self {
            InputContentBlock::Text { text } => InputBlockView::Text { text: text@ },
            InputContentBlock::ToolCall { id, name, arguments } => InputBlockView::ToolCall {
                id: id@,
                name: name@,
                arguments: arguments@,
            },
            InputContentBlock::ToolResult { id, name, result } => InputBlockView::ToolResult {
                id: id@,
                name: name@,
                result: result@,
            },
        }
    }
}

impl Clone for InputContentBlock {
    fn clone(&self) -> (r: Self)
        ensures
            r@ == self@,
    {
        match self {
            InputContentBlock::Text { text } => InputContentBlock::Text { text: text.clone() },
            InputContentBlock::ToolCall { id, name, arguments } => InputContentBlock::ToolCall {
                id: id.clone(),
                name: name.clone(),
                arguments: arguments.clone(),
            },
            InputContentBlock::ToolResult { id, name, result } => InputContentBlock::ToolResult {
                id: id.clone(),
                name: name.clone(),
                result: result.clone(),
            },
        }
    }
}

/// Abstract value of a sequence of input blocks.
pub open spec fn input_blocks_view(v: Seq<InputContentBlock>) -> Seq<InputBlockView> {
    v.map_values(|b: InputContentBlock| b@)
}

/// A single message in the conversation sent to the gateway.
#[derive(Debug)]
pub struct InputMessage {
    /// The role of the message sender.
    pub role: MessageRole,
    /// The content of the message.
    pub content: Vec<InputContentBlock>,
}

/// Abstract value of an [`InputMessage`].
pub struct InputMessageView {
    pub role: MessageRole,
    pub content: Seq<InputBlockView>,
}

impl View for InputMessage {
    type V = InputMessageView;

    open spec fn view(&self) -> InputMessageView {
        InputMessageView { role: self.role, content: input_blocks_view(self.content@) }
    }
}

/// Clones a vector of input blocks, keeping every block's value.
pub fn clone_input_blocks(v: &Vec<InputContentBlock>) -> (r: Vec<InputContentBlock>)
    ensures
        input_blocks_view(r@) == input_blocks_view(v@),
{
    let mut r: Vec<InputContentBlock> = Vec::new();
    let mut i: usize = 0;
    while i < v.len()
        invariant
            i <= v.len(),
            r@.len() == i,
            forall|j: int| 0 <= j < i ==> (#[trigger] r@[j])@ == v@[j]@,
        decreases v.len() - i,
    {
        r.push(v[i].clone());
        i = i + 1;
    }
    assert(input_blocks_view(r@) =~= input_blocks_view(v@));
    r
}

impl Clone for InputMessage {
    fn clone(&self) -> (r: Self)
        ensures
            r@ == self@,
    {
        InputMessage { role: self.role, content: clone_input_blocks(&self.content) }
    }
}

/// Abstract value of a sequence of input messages.
pub open spec fn input_messages_view(v: Seq<InputMessage>) -> Seq<InputMessageView> {
    v.map_values(|m: InputMessage| m@)
}

/// Clones a vector of input messages, keeping every message's value.
pub fn clone_input_messages(v: &Vec<InputMessage>) -> (r: Vec<InputMessage>)
    ensures
        input_messages_view(r@) == input_messages_view(v@),
{
    let mut r: Vec<InputMessage> = Vec::new();
    let mut i: usize = 0;
    while i < v.len()
        invariant
            i <= v.len(),
            r@.len() == i,
            forall|j: int| 0 <= j < i ==> (#[trigger] r@[j])@ == v@[j]@,
        decreases v.len() - i,
    {
        r.push(v[i].clone());
        i = i + 1;
    }
    assert(input_messages_view(r@) =~= input_messages_view(v@));
    r
}

/// A message holding a single text block.
pub open spec fn spec_text_message(role: MessageRole, text: Seq<char>) -> InputMessageView {
    InputMessageView { role, content: seq![InputBlockView::Text { text }] }
}

impl InputMessage {
    /// Create a new user message with text content.
    pub fn user(text: &str) -> (r: Self)
        ensures
            r@ == spec_text_message(MessageRole::User, text@),
    {
        let r = InputMessage {
            role: MessageRole::User,
            content: vec![InputContentBlock::Text { text: text.to_string() }],
        };
        assert(r@.content =~= seq![InputBlockView::Text { text: text@ }]);
        r
    }

    /// Create a new assistant message with text content.
    pub fn assistant(text: &str) -> (r: Self)
        ensures
            r@ == spec_text_message(MessageRole::Assistant, text@),
    {
        let r = InputMessage {
            role: MessageRole::Assistant,
            content: vec![InputContentBlock::Text { text: text.to_string() }],
        };
        assert(r@.content =~= seq![InputBlockView::Text { text: text@ }]);
        r
    }

    /// Create a new assistant message with one tool call; `arguments` is JSON text.
    pub fn assistant_tool_call(id: &str, name: &str, arguments: &str) -> (r: Self)
        ensures
            r@ == (InputMessageView {
                role: MessageRole::Assistant,
                content: seq![
                    InputBlockView::ToolCall { id: id@, name: name@, arguments: arguments@ },
                ],
            }),
    {
        let r = InputMessage {
            role: MessageRole::Assistant,
            content: vec![
                InputContentBlock::ToolCall {
                    id: id.to_string(),
                    name: name.to_string(),
                    arguments: arguments.to_string(),
                },
            ],
        };
        assert(r@.content =~= seq![
            InputBlockView::ToolCall { id: id@, name: name@, arguments: arguments@ },
        ]);
        r
    }

    /// Create a new tool result message; tool results are sent with the user role.
    pub fn tool_result(id: &str, name: &str, result: &str) -> (r: Self)
        ensures
            r@ == (InputMessageView {
                role: MessageRole::User,
                content: seq![InputBlockView::ToolResult { id: id@, name: name@, result: result@ }],
            }),
    {
        let r = InputMessage {
            role: MessageRole::User,
            content: vec![
                InputContentBlock::ToolResult {
                    id: id.to_string(),
                    name: name.to_string(),
                    result: result.to_string(),
                },
            ],
        };
        assert(r@.content =~= seq![
            InputBlockView::ToolResult { id: id@, name: name@, result: result@ },
        ]);
        r
    }

    /// Add a content block to this message.
    pub fn with_content(self, block: InputContentBlock) -> (r: Self)
        ensures
            r@.role == self@.role,
            r@.content == self@.content.push(block@),
    {
        let mut s = self;
        s.content.push(block);
        assert(input_blocks_view(s.content@) =~= self@.content.push(block@));
        s
    }
}

} // verus!

verus! {

/// Tool definition sent to the gateway; `parameters` is a JSON schema as JSON text.
#[derive(Debug)]
pub struct ToolDefinition {
    /// Name of the tool.
    pub name: String,
    /// Description of what the tool does.
    pub description: String,
    /// JSON schema for the tool parameters, as JSON text.
    pub parameters: String,
}

impl ToolDefinition {
    /// Create a new tool definition.
    pub fn new(name: &str, description: &str, parameters: &str) -> (r: Self)
        ensures
            r.name@ == name@,
            r.description@ == description@,
            r.parameters@ == parameters@,
    {
        ToolDefinition {
            name: name.to_string(),
            description: description.to_string(),
            parameters: parameters.to_string(),
        }
    }
}

impl Clone for ToolDefinition {
    fn clone(&self) -> (r: Self)
        ensures
            r.name@ == self.name@,
            r.description@ == self.description@,
            r.parameters@ == self.parameters@,
    {
        ToolDefinition {
            name: self.name.clone(),
            description: self.description.clone(),
            parameters: self.parameters.clone(),
        }
    }
}

/// Input for an inference request.
#[derive(Debug)]
pub struct InferenceInput {
    /// System prompt override.
    pub system: Option<String>,
    /// Conversation messages.
    pub messages: Vec<InputMessage>,
}

/// Request payload for chat inference. JSON payloads are carried as JSON text and
/// identifiers as 128-bit integers.
#[derive(Debug)]
pub struct InferenceRequest {
    /// Function name configured in TensorZero.
    pub function_name: Option<String>,
    /// Model name for ad-hoc inference without a configured function.
    pub model_name: Option<String>,
    /// Optional episode ID for tracking conversations.
    pub episode_id: Option<u128>,
    /// Input messages for the conversation.
    pub input: InferenceInput,
    /// Whether to stream the response.
    pub stream: bool,
    /// Tool choice configuration.
    pub tool_choice: Option<ToolChoice>,
    /// Additional tools available for this request.
    pub additional_tools: Option<Vec<ToolDefinition>>,
    /// Template parameters for dynamic prompts (JSON text).
    pub params: Option<String>,
    /// Dynamic credentials such as API keys (JSON text).
    pub credentials: Option<String>,
    /// Tags for observability (JSON text).
    pub tags: Option<String>,
    /// Whether the model may request several tool calls at once.
    pub parallel_tool_calls: Option<bool>,
}

/// Builder for constructing inference requests.
#[derive(Debug)]
pub struct InferenceRequestBuilder {
    pub function_name: Option<String>,
    pub model_name: Option<String>,
    pub episode_id: Option<u128>,
    pub messages: Vec<InputMessage>,
    pub system: Option<String>,
    pub stream: bool,
    pub tool_choice: Option<ToolChoice>,
    pub additional_tools: Option<Vec<ToolDefinition>>,
    pub params: Option<String>,
    pub credentials: Option<String>,
    pub tags: Option<String>,
    pub parallel_tool_calls: Option<bool>,
}

/// The text held by an optional string, as an optional sequence of characters.
pub open spec fn opt_str_view(s: Option<String>) -> Option<Seq<char>> {
    match s {
        Some(t) => Some(t@),
        None => None,
    }
}

/// Copies an optional string.
pub fn clone_opt_string(s: &Option<String>) -> (r: Option<String>)
    ensures
        opt_str_view(r) == opt_str_view(*s),
{
    match s {
        Some(t) => Some(t.clone()),
        None => None,
    }
}

impl InferenceRequestBuilder {
    /// Create a new request builder with nothing set.
    pub fn new() -> (r: Self)
        ensures
            r.function_name is None,
            r.model_name is None,
            r.episode_id is None,
            r.messages@.len() == 0,
            r.system is None,
            !r.stream,
            r.tool_choice is None,
            r.additional_tools is None,
            r.params is None,
            r.credentials is None,
            r.tags is None,
            r.parallel_tool_calls is None,
    {
        InferenceRequestBuilder {
            function_name: None,
            model_name: None,
            episode_id: None,
            messages: Vec::new(),
            system: None,
            stream: false,
            tool_choice: None,
            additional_tools: None,
            params: None,
            credentials: None,
            tags: None,
            parallel_tool_calls: None,
        }
    }

    /// Set the function name.
    pub fn function_name(self, name: &str) -> (r: Self)
        ensures
            opt_str_view(r.function_name) == Some(name@),
            r == (InferenceRequestBuilder { function_name: r.function_name, ..self }),
    {
        InferenceRequestBuilder { function_name: Some(name.to_string()), ..self }
    }

    /// Set the model name, for inference without a configured function.
    pub fn model(self, name: &str) -> (r: Self)
        ensures
            opt_str_view(r.model_name) == Some(name@),
            r == (InferenceRequestBuilder { model_name: r.model_name, ..self }),
    {
        InferenceRequestBuilder { model_name: Some(name.to_string()), ..self }
    }

    /// Set the episode ID.
    pub fn episode_id(self, id: u128) -> (r: Self)
        ensures
            r == (InferenceRequestBuilder { episode_id: Some(id), ..self }),
    {
        InferenceRequestBuilder { episode_id: Some(id), ..self }
    }

    /// Set the system prompt.
    pub fn system(self, prompt: &str) -> (r: Self)
        ensures
            opt_str_view(r.system) == Some(prompt@),
            r == (InferenceRequestBuilder { system: r.system, ..self }),
    {
        InferenceRequestBuilder { system: Some(prompt.to_string()), ..self }
    }

    /// Add a message to the request.
    pub fn message(self, message: InputMessage) -> (r: Self)
        ensures
            r.messages@ == self.messages@.push(message),
            r == (InferenceRequestBuilder { messages: r.messages, ..self }),
    {
        let mut s = self;
        s.messages.push(message);
        s
    }

    /// Add several messages to the request, in order.
    pub fn messages(self, messages: Vec<InputMessage>) -> (r: Self)
        ensures
            r.messages@ == self.messages@ + messages@,
            r == (InferenceRequestBuilder { messages: r.messages, ..self }),
    {
        let mut s = self;
        let mut m = messages;
        s.messages.append(&mut m);
        s
    }

    /// Enable streaming for this request.
    pub fn stream(self) -> (r: Self)
        ensures
            r == (InferenceRequestBuilder { stream: true, ..self }),
    {
        InferenceRequestBuilder { stream: true, ..self }
    }

    /// Set the tool choice.
    pub fn tool_choice(self, choice: ToolChoice) -> (r: Self)
        ensures
            r == (InferenceRequestBuilder { tool_choice: Some(choice), ..self }),
    {
        InferenceRequestBuilder { tool_choice: Some(choice), ..self }
    }

    /// Set the additional tools.
    pub fn additional_tools(self, tools: Vec<ToolDefinition>) -> (r: Self)
        ensures
            r == (InferenceRequestBuilder { additional_tools: Some(tools), ..self }),
    {
        InferenceRequestBuilder { additional_tools: Some(tools), ..self }
    }

    /// Set template parameters (JSON text).
    pub fn params(self, params: String) -> (r: Self)
        ensures
            r == (InferenceRequestBuilder { params: Some(params), ..self }),
    {
        InferenceRequestBuilder { params: Some(params), ..self }
    }

    /// Set dynamic credentials (JSON text).
    pub fn credentials(self, credentials: String) -> (r: Self)
        ensures
            r == (InferenceRequestBuilder { credentials: Some(credentials), ..self }),
    {
        InferenceRequestBuilder { credentials: Some(credentials), ..self }
    }

    /// Set tags (JSON text).
    pub fn tags(self, tags: String) -> (r: Self)
        ensures
            r == (InferenceRequestBuilder { tags: Some(tags), ..self }),
    {
        InferenceRequestBuilder { tags: Some(tags), ..self }
    }

    /// Set whether parallel tool calls are allowed.
    pub fn parallel_tool_calls(self, parallel: bool) -> (r: Self)
        ensures
            r == (InferenceRequestBuilder { parallel_tool_calls: Some(parallel), ..self }),
    {
        InferenceRequestBuilder { parallel_tool_calls: Some(parallel), ..self }
    }

    /// Build the inference request; a function name or a model name is required.
    pub fn build(self) -> (r: Result<InferenceRequest, TensorZeroError>)
        ensures
            r is Ok <==> (self.function_name is Some || self.model_name is Some),
            r matches Ok(req) ==> {
                &&& req.function_name == self.function_name
                &&& req.model_name == self.model_name
                &&& req.episode_id == self.episode_id
                &&& req.input.system == self.system
                &&& req.input.messages == self.messages
                &&& req.stream == self.stream
                &&& req.tool_choice == self.tool_choice
                &&& req.additional_tools == self.additional_tools
                &&& req.params == self.params
                &&& req.credentials == self.credentials
                &&& req.tags == self.tags
                &&& req.parallel_tool_calls == self.parallel_tool_calls
            },
            r matches Err(e) ==> e matches TensorZeroError::InvalidRequest { message }
                && message@ == "function_name is required"@,
    {
        if self.function_name.is_none() && self.model_name.is_none() {
            return Err(TensorZeroError::InvalidRequest { message: "function_name is required".to_string() });
        }
        Ok(InferenceRequest {
            function_name: self.function_name,
            model_name: self.model_name,
            episode_id: self.episode_id,
            input: InferenceInput { system: self.system, messages: self.messages },
            stream: self.stream,
            tool_choice: self.tool_choice,
            additional_tools: self.additional_tools,
            params: self.params,
            credentials: self.credentials,
            tags: self.tags,
            parallel_tool_calls: self.parallel_tool_calls,
        })
    }
}

/// Input for a JSON inference request.
#[derive(Debug)]
pub struct JsonInferenceInput {
    /// System prompt override.
    pub system: Option<String>,
    /// Conversation messages.
    pub messages: Vec<InputMessage>,
}

/// Request payload for JSON inference.
#[derive(Debug)]
pub struct JsonInferenceRequest {
    /// Function name configured in TensorZero.
    pub function_name: String,
    /// Optional episode ID for tracking.
    pub episode_id: Option<u128>,
    /// Input for the JSON inference.
    pub input: JsonInferenceInput,
    /// Whether to stream the response.
    pub stream: bool,
    /// Output schema for the response (JSON text).
    pub output_schema: Option<String>,
}

/// Builder for JSON inference requests.
#[derive(Debug)]
pub struct JsonInferenceRequestBuilder {
    pub function_name: Option<String>,
    pub episode_id: Option<u128>,
    pub messages: Vec<InputMessage>,
    pub system: Option<String>,
    pub stream: bool,
    pub output_schema: Option<String>,
}

impl JsonInferenceRequestBuilder {
    /// Create a new JSON request builder with nothing set.
    pub fn new() -> (r: Self)
        ensures
            r.function_name is None,
            r.episode_id is None,
            r.messages@.len() == 0,
            r.system is None,
            !r.stream,
            r.output_schema is None,
    {
        JsonInferenceRequestBuilder {
            function_name: None,
            episode_id: None,
            messages: Vec::new(),
            system: None,
            stream: false,
            output_schema: None,
        }
    }

    /// Set the function name.
    pub fn function_name(self, name: &str) -> (r: Self)
        ensures
            opt_str_view(r.function_name) == Some(name@),
            r == (JsonInferenceRequestBuilder { function_name: r.function_name, ..self }),
    {
        JsonInferenceRequestBuilder { function_name: Some(name.to_string()), ..self }
    }

    /// Set the episode ID.
    pub fn episode_id(self, id: u128) -> (r: Self)
        ensures
            r == (JsonInferenceRequestBuilder { episode_id: Some(id), ..self }),
    {
        JsonInferenceRequestBuilder { episode_id: Some(id), ..self }
    }

    /// Set the system prompt.
    pub fn system(self, prompt: &str) -> (r: Self)
        ensures
            opt_str_view(r.system) == Some(prompt@),
            r == (JsonInferenceRequestBuilder { system: r.system, ..self }),
    {
        JsonInferenceRequestBuilder { system: Some(prompt.to_string()), ..self }
    }

    /// Add a message.
    pub fn message(self, message: InputMessage) -> (r: Self)
        ensures
            r.messages@ == self.messages@.push(message),
            r == (JsonInferenceRequestBuilder { messages: r.messages, ..self }),
    {
        let mut s = self;
        s.messages.push(message);
        s
    }

    /// Add several messages, in order.
    pub fn messages(self, messages: Vec<InputMessage>) -> (r: Self)
        ensures
            r.messages@ == self.messages@ + messages@,
            r == (JsonInferenceRequestBuilder { messages: r.messages, ..self }),
    {
        let mut s = self;
        let mut m = messages;
        s.messages.append(&mut m);
        s
    }

    /// Enable streaming.
    pub fn stream(self) -> (r: Self)
        ensures
            r == (JsonInferenceRequestBuilder { stream: true, ..self }),
    {
        JsonInferenceRequestBuilder { stream: true, ..self }
    }

    /// Set the output schema (JSON text).
    pub fn output_schema(self, schema: String) -> (r: Self)
        ensures
            r == (JsonInferenceRequestBuilder { output_schema: Some(schema), ..self }),
    {
        JsonInferenceRequestBuilder { output_schema: Some(schema), ..self }
    }

    /// Build the JSON inference request; the function name is required.
    pub fn build(self) -> (r: Result<JsonInferenceRequest, TensorZeroError>)
        ensures
            r is Ok <==> self.function_name is Some,
            r matches Ok(req) ==> {
                &&& Some(req.function_name) == self.function_name
                &&& req.episode_id == self.episode_id
                &&& req.input.system == self.system
                &&& req.input.messages == self.messages
                &&& req.stream == self.stream
                &&& req.output_schema == self.output_schema
            },
            r matches Err(e) ==> e matches TensorZeroError::InvalidRequest { message }
                && message@ == "function_name is required"@,
    {
        match self.function_name {
            None => Err(TensorZeroError::InvalidRequest { message: "function_name is required".to_string() }),
            Some(function_name) => Ok(JsonInferenceRequest {
                function_name,
                episode_id: self.episode_id,
                input: JsonInferenceInput { system: self.system, messages: self.messages },
                stream: self.stream,
                output_schema: self.output_schema,
            }),
        }
    }
}

} // verus!
