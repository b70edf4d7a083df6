//! Response types for TensorZero inference.

use vstd::prelude::*;
use crate::tensorzero::request::opt_str_view;
use crate::tensorzero::request::clone_opt_string;

verus! {

/// What `serde_json` makes of a JSON text: `None` when the text is not valid JSON,
/// otherwise the compact text that the parsed value serializes back to.
pub uninterp spec fn spec_json_reformat(text: Seq<char>) -> Option<Seq<char>>;

/// Parses JSON text with `serde_json::from_str` and renders the parsed value back as
/// compact JSON text.
#[verifier::external_body]
pub(crate) fn reformat_json(text: &str) -> (r: Result<String, serde_json::Error>)
    ensures
        r is Ok <==> spec_json_reformat(text@) is Some,
        r matches Ok(s) ==> Some(s@) == spec_json_reformat(text@),
{
    match serde_json::from_str::<serde_json::Value>(text) {
        Ok(v) => Ok(v.to_string()),
        Err(e) => Err(e),
    }
}

/// Token usage statistics reported by the gateway.
#[derive(Debug, Clone, Copy, Default)]
pub struct Usage {
    /// Number of input tokens.
    pub input_tokens: u32,
    /// Number of output tokens.
    pub output_tokens: u32,
}

impl Usage {
    /// Total tokens used: input plus output.
    pub fn total_tokens(&self) -> (r: u32)
        requires
            self.input_tokens + self.output_tokens <= u32::MAX,
        ensures
            r == self.input_tokens + self.output_tokens,
    {
        self.input_tokens + self.output_tokens
    }
}

/// A tool call made by the model. Argument payloads are JSON text.
#[derive(Debug)]
pub struct ToolCallBlock {
    /// Unique ID for this tool call.
    pub id: String,
    /// Validated name of the tool (absent if invalid).
    pub name: Option<String>,
    /// Validated arguments as JSON text (absent if invalid).
    pub arguments: Option<String>,
    /// Raw name from the model.
    pub raw_name: Option<String>,
    /// Raw arguments from the model.
    pub raw_arguments: Option<String>,
}

/// Abstract value of a [`ToolCallBlock`].
pub struct ToolCallView {
    pub id: Seq<char>,
    pub name: Option<Seq<char>>,
    pub arguments: Option<Seq<char>>,
    pub raw_name: Option<Seq<char>>,
    pub raw_arguments: Option<Seq<char>>,
}

impl View for ToolCallBlock {
    type V = ToolCallView;

    open spec fn view(&self) -> ToolCallView {
        ToolCallView {
            id: self.id@,
            name: opt_str_view(self.name),
            arguments: opt_str_view(self.arguments),
            raw_name: opt_str_view(self.raw_name),
            raw_arguments: opt_str_view(self.raw_arguments),
        }
    }
}

impl Clone for ToolCallBlock {
    fn clone(&self) -> (r: Self)
        ensures
            r@ == self@,
    {
        ToolCallBlock {
            id: self.id.clone(),
            name: clone_opt_string(&self.name),
            arguments: clone_opt_string(&self.arguments),
            raw_name: clone_opt_string(&self.raw_name),
            raw_arguments: clone_opt_string(&self.raw_arguments),
        }
    }
}

/// The tool name of a call: the validated name, else the raw name.
pub open spec fn spec_tool_name(tc: ToolCallView) -> Option<Seq<char>> {
    if tc.name is Some {
        tc.name
    } else {
        tc.raw_name
    }
}

/// The arguments of a call as JSON text: the validated arguments; else the raw
/// arguments as `serde_json` reads them; else `null`.
pub open spec fn spec_parse_arguments(tc: ToolCallView) -> Option<Seq<char>> {
    match tc.arguments {
        Some(a) => Some(a),
        None => match tc.raw_arguments {
            Some(raw) => spec_json_reformat(raw),
            None => Some("null"@),
        },
    }
}

/// The arguments text for input messages: the raw arguments; else the validated
/// arguments; else `{}`.
pub open spec fn spec_arguments_string(tc: ToolCallView) -> Seq<char> {
    match tc.raw_arguments {
        Some(raw) => raw,
        None => match tc.arguments {
            Some(a) => a,
            None => "{}"@,
        },
    }
}

impl ToolCallBlock {
    /// The tool name, preferring the validated name over the raw name.
    pub fn tool_name(&self) -> (r: Option<&String>)
        ensures
            opt_str_view(match r { Some(s) => Some(*s), None => None }) == spec_tool_name(self@),
    {
        match &self.name {
            Some(n) => Some(n),
            None => match &self.raw_name {
                Some(n) => Some(n),
                None => None,
            },
        }
    }

    /// The arguments as JSON text: the validated arguments if present, otherwise the
    /// parsed raw arguments, otherwise `null`.
    pub fn parse_arguments(&self) -> (r: Result<String, serde_json::Error>)
        ensures
            r is Ok <==> spec_parse_arguments(self@) is Some,
            r matches Ok(s) ==> Some(s@) == spec_parse_arguments(self@),
    {
        match &self.arguments {
            Some(args) => Ok(args.clone()),
            None => match &self.raw_arguments {
                Some(raw) => reformat_json(raw.as_str()),
                None => {
                    proof {
                        reveal_strlit("null");
                    }
                    Ok("null".to_string())
                },
            },
        }
    }

    /// The arguments string for input messages: the raw arguments if present,
    /// otherwise the validated arguments, otherwise `{}`.
    pub fn arguments_string(&self) -> (r: String)
        ensures
            r@ == spec_arguments_string(self@),
    {
        match &self.raw_arguments {
            Some(raw) => raw.clone(),
            None => match &self.arguments {
                Some(args) => args.clone(),
                None => "{}".to_string(),
            },
        }
    }
}

/// Content block in a response.
#[derive(Debug)]
pub enum ContentBlock {
    /// Text content.
    Text { text: String },
    /// Tool call from the model.
    ToolCall(ToolCallBlock),
}

/// Abstract value of a response [`ContentBlock`].
pub enum ResponseBlockView {
    Text { text: Seq<char> },
    ToolCall(ToolCallView),
}

impl View for ContentBlock {
    type V = ResponseBlockView;

    open spec fn view(&self) -> ResponseBlockView {
        match self {
            ContentBlock::Text { text } => ResponseBlockView::Text { text: text@ },
            ContentBlock::ToolCall(tc) => ResponseBlockView::ToolCall(tc@),
        }
    }
}

impl Clone for ContentBlock {
    fn clone(&self) -> (r: Self)
        ensures
            r@ == self@,
    {
        match self {
            ContentBlock::Text { text } => ContentBlock::Text { text: text.clone() },
            ContentBlock::ToolCall(tc) => ContentBlock::ToolCall(tc.clone()),
        }
    }
}

/// Abstract value of a sequence of response blocks.
pub open spec fn response_blocks_view(v: Seq<ContentBlock>) -> Seq<ResponseBlockView> {
    v.map_values(|b: ContentBlock| b@)
}

/// The text of the text blocks, concatenated in order.
pub open spec fn spec_concat_texts(blocks: Seq<ResponseBlockView>) -> Seq<char>
    decreases blocks.len(),
{
    if blocks.len() == 0 {
        Seq::empty()
    } else {
        spec_concat_texts(blocks.drop_last()) + match blocks.last() {
            ResponseBlockView::Text { text } => text,
            ResponseBlockView::ToolCall(_) => Seq::empty(),
        }
    }
}

/// The text of a response is the text of its blocks joined in order: two runs of
/// blocks give the text of the first followed by that of the second, a text block adds
/// its text after what comes before it, and a tool call block adds nothing.
pub proof fn response_text_joins_blocks(
    a: Seq<ResponseBlockView>,
    b: Seq<ResponseBlockView>,
    t: Seq<char>,
    tc: ToolCallView,
)
    ensures
        spec_concat_texts(Seq::empty()) == Seq::<char>::empty(),
        spec_concat_texts(a + b) == spec_concat_texts(a) + spec_concat_texts(b),
        spec_concat_texts(a.push(ResponseBlockView::Text { text: t })) == spec_concat_texts(a) + t,
        spec_concat_texts(a.push(ResponseBlockView::ToolCall(tc))) == spec_concat_texts(a),
    decreases b.len(),
{
    assert(a.push(ResponseBlockView::Text { text: t }).drop_last() =~= a);
    assert(a.push(ResponseBlockView::ToolCall(tc)).drop_last() =~= a);
    assert(spec_concat_texts(a) + Seq::<char>::empty() =~= spec_concat_texts(a));
    if b.len() == 0 {
        assert(a + b =~= a);
    } else {
        response_text_joins_blocks(a, b.drop_last(), t, tc);
        assert((a + b).drop_last() =~= a + b.drop_last());
        assert((a + b).last() == b.last());
        let x = match b.last() {
            ResponseBlockView::Text { text } => text,
            ResponseBlockView::ToolCall(_) => Seq::empty(),
        };
        assert(spec_concat_texts(a) + spec_concat_texts(b.drop_last()) + x
            =~= spec_concat_texts(a) + (spec_concat_texts(b.drop_last()) + x));
    }
}

/// The tool calls among the blocks, in order.
pub open spec fn spec_tool_calls(blocks: Seq<ResponseBlockView>) -> Seq<ToolCallView>
    decreases blocks.len(),
{
    if blocks.len() == 0 {
        Seq::empty()
    } else {
        spec_tool_calls(blocks.drop_last()) + match blocks.last() {
            ResponseBlockView::Text { .. } => Seq::empty(),
            ResponseBlockView::ToolCall(tc) => seq![tc],
        }
    }
}

/// Response from a chat inference request. Identifiers are 128-bit integers.
#[derive(Debug)]
pub struct InferenceResponse {
    /// Unique inference ID.
    pub inference_id: u128,
    /// Episode ID for conversation tracking.
    pub episode_id: u128,
    /// Response content blocks.
    pub content: Vec<ContentBlock>,
    /// Usage statistics.
    pub usage: Option<Usage>,
}

impl InferenceResponse {
    /// The text content of the response: all text blocks concatenated in order.
    pub fn text(&self) -> (r: String)
        ensures
            r@ == spec_concat_texts(response_blocks_view(self.content@)),
    {
        let mut r = String::new();
        let mut i: usize = 0;
        let ghost blocks = response_blocks_view(self.content@);
        while i < self.content.len()
            invariant
                i <= self.content.len(),
                blocks == response_blocks_view(self.content@),
                r@ == spec_concat_texts(blocks.take(i as int)),
            decreases self.content.len() - i,
        {
            assert(blocks.take(i + 1).drop_last() =~= blocks.take(i as int));
            match &self.content[i] {
                ContentBlock::Text { text } => {
                    r.append(text.as_str());
                },
                ContentBlock::ToolCall(_) => {},
            }
            i = i + 1;
        }
        assert(blocks.take(i as int) =~= blocks);
        r
    }

    /// All tool calls of the response, in order.
    pub fn tool_calls(&self) -> (r: Vec<&ToolCallBlock>)
        ensures
            r@.map_values(|t: &ToolCallBlock| t@) == spec_tool_calls(response_blocks_view(self.content@)),
    {
        let mut r: Vec<&ToolCallBlock> = Vec::new();
        let mut i: usize = 0;
        let ghost blocks = response_blocks_view(self.content@);
        while i < self.content.len()
            invariant
                i <= self.content.len(),
                blocks == response_blocks_view(self.content@),
                r@.map_values(|t: &ToolCallBlock| t@) == spec_tool_calls(blocks.take(i as int)),
            decreases self.content.len() - i,
        {
            assert(blocks.take(i + 1).drop_last() =~= blocks.take(i as int));
            let ghost before = r@;
            match &self.content[i] {
                ContentBlock::Text { .. } => {},
                ContentBlock::ToolCall(tc) => {
                    r.push(tc);
                    assert(r@.map_values(|t: &ToolCallBlock| t@) =~= before.map_values(|t: &ToolCallBlock| t@).push(tc@));
                },
            }
            i = i + 1;
        }
        assert(blocks.take(i as int) =~= blocks);
        r
    }

    /// Whether the response contains any tool call.
    pub fn has_tool_calls(&self) -> (r: bool)
        ensures
            r <==> spec_tool_calls(response_blocks_view(self.content@)).len() > 0,
    {
        let mut i: usize = 0;
        let ghost blocks = response_blocks_view(self.content@);
        while i < self.content.len()
            invariant
                i <= self.content.len(),
                blocks == response_blocks_view(self.content@),
                spec_tool_calls(blocks.take(i as int)).len() == 0,
            decreases self.content.len() - i,
        {
            assert(blocks.take(i + 1).drop_last() =~= blocks.take(i as int));
            if let ContentBlock::ToolCall(_) = &self.content[i] {
                assert(spec_tool_calls(blocks.take(i + 1)).len() > 0);
                proof {
                    lemma_tool_calls_prefix(blocks, i as int + 1);
                }
                return true;
            }
            i = i + 1;
        }
        assert(blocks.take(i as int) =~= blocks);
        false
    }
}

/// The tool calls of a prefix are never more than those of the whole sequence.
proof fn lemma_tool_calls_prefix(blocks: Seq<ResponseBlockView>, k: int)
    requires
        0 <= k <= blocks.len(),
    ensures
        spec_tool_calls(blocks.take(k)).len() <= spec_tool_calls(blocks).len(),
    decreases blocks.len() - k,
{
    if k < blocks.len() {
        lemma_tool_calls_prefix(blocks, k + 1);
        assert(blocks.take(k + 1).drop_last() =~= blocks.take(k));
    } else {
        assert(blocks.take(k) =~= blocks);
    }
}

/// Output of a JSON inference.
#[derive(Debug)]
pub struct Output {
    /// Raw JSON string from the model.
    pub raw: String,
    /// Parsed JSON value, as JSON text.
    pub parsed: Option<String>,
}

/// Response from a JSON inference request.
#[derive(Debug)]
pub struct JsonInferenceResponse {
    /// Unique inference ID.
    pub inference_id: u128,
    /// Episode ID for conversation tracking.
    pub episode_id: u128,
    /// The parsed JSON output.
    pub output: Output,
    /// Usage statistics.
    pub usage: Option<Usage>,
}

impl JsonInferenceResponse {
    /// The parsed output value, as JSON text.
    pub fn parsed(&self) -> (r: Option<&String>)
        ensures
            match r { Some(s) => self.output.parsed == Some(*s), None => self.output.parsed is None },
    {
        match &self.output.parsed {
            Some(p) => Some(p),
            None => None,
        }
    }
}

/// Content block in a streaming chunk.
#[derive(Debug)]
pub enum StreamContentBlock {
    /// Text content delta.
    Text { id: String, text: String },
    /// Tool call delta.
    ToolCall { id: String, raw_name: String, raw_arguments: String },
    /// Thought content delta (from reasoning models).
    Thought { id: String, text: Option<String>, signature: Option<String> },
}

impl StreamContentBlock {
    /// The block ID.
    pub fn id(&self) -> (r: &String)
        ensures
            match self {
                StreamContentBlock::Text { id, .. } => r == id,
                StreamContentBlock::ToolCall { id, .. } => r == id,
                StreamContentBlock::Thought { id, .. } => r == id,
            },
    {
        match self {
            StreamContentBlock::Text { id, .. } => id,
            StreamContentBlock::ToolCall { id, .. } => id,
            StreamContentBlock::Thought { id, .. } => id,
        }
    }

    /// The block type as a string: `text`, `tool_call` or `thought`.
    pub fn block_type(&self) -> (r: &'static str)
        ensures
            r@ == match self {
                StreamContentBlock::Text { .. } => "text"@,
                StreamContentBlock::ToolCall { .. } => "tool_call"@,
                StreamContentBlock::Thought { .. } => "thought"@,
            },
    {
        match self {
            StreamContentBlock::Text { .. } => "text",
            StreamContentBlock::ToolCall { .. } => "tool_call",
            StreamContentBlock::Thought { .. } => "thought",
        }
    }
}

/// A streaming chunk: each SSE event carries a complete JSON chunk.
#[derive(Debug)]
pub struct StreamEvent {
    /// Inference ID for this request.
    pub inference_id: u128,
    /// Episode ID for conversation tracking.
    pub episode_id: u128,
    /// Variant name used for inference.
    pub variant_name: String,
    /// Content blocks (deltas) in this chunk.
    pub content: Vec<StreamContentBlock>,
    /// Usage statistics (usually present in final chunks).
    pub usage: Option<Usage>,
}

/// Earlier name of a streaming chunk.
pub type ChunkEvent = StreamEvent;

/// Earlier streaming format: start of a content block.
#[derive(Debug)]
pub struct ContentBlockStartEvent {
    /// Index of this content block.
    pub index: usize,
    /// Type of content block.
    pub content_block: ContentBlockType,
}

/// Earlier streaming format: type of a content block being streamed.
#[derive(Debug)]
pub enum ContentBlockType {
    /// Text content block.
    Text { text: String },
    /// Tool call content block.
    ToolCall(StreamToolCall),
}

/// Earlier streaming format: a tool call.
#[derive(Debug)]
pub struct StreamToolCall {
    /// Unique ID for this tool call.
    pub id: String,
    /// Raw name of the tool.
    pub raw_name: Option<String>,
    /// Raw arguments as a string.
    pub raw_arguments: Option<String>,
    /// Name of the tool.
    pub name: Option<String>,
    /// Arguments.
    pub arguments: Option<String>,
}

/// Earlier streaming format: delta for a content block.
#[derive(Debug)]
pub struct ContentBlockDeltaEvent {
    /// Index of the content block being updated.
    pub index: usize,
    /// The delta content.
    pub delta: Delta,
}

/// Earlier streaming format: delta content.
#[derive(Debug)]
pub enum Delta {
    /// Text delta.
    TextDelta { text: String },
    /// Tool call arguments delta.
    ToolCallDelta { arguments: String },
}

/// Earlier streaming format: end of a content block.
#[derive(Debug)]
pub struct ContentBlockStopEvent {
    /// Index of the finished content block.
    pub index: usize,
}

/// Earlier streaming format: stream finished.
#[derive(Debug)]
pub struct DoneEvent {
    /// Usage statistics for the complete response.
    pub usage: Option<Usage>,
}

} // verus!
