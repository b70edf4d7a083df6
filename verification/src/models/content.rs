//! Content block types for messages.

use vstd::prelude::*;
use crate::tensorzero::request::opt_str_view;
use crate::tensorzero::request::clone_opt_string;

verus! {

/// Image source specification.
#[derive(Debug)]
pub enum ImageSource {
    /// Base64-encoded image data.
    Base64 { media_type: String, data: String },
    /// URL to an image.
    Url { url: String },
}

/// Abstract value of an [`ImageSource`].
pub enum ImageSourceView {
    Base64 { media_type: Seq<char>, data: Seq<char> },
    Url { url: Seq<char> },
}

impl View for ImageSource {
    type V = ImageSourceView;

    open spec fn view(&self) -> ImageSourceView {
        match self {
            ImageSource::Base64 { media_type, data } => ImageSourceView::Base64 {
                media_type: media_type@,
                data: data@,
            },
            ImageSource::Url { url } => ImageSourceView::Url { url: url@ },
        }
    }
}

impl Clone for ImageSource {
    fn clone(&self) -> (r: Self)
        ensures
            r@ == self@,
    {
        match self {
            ImageSource::Base64 { media_type, data } => ImageSource::Base64 {
                media_type: media_type.clone(),
                data: data.clone(),
            },
            ImageSource::Url { url } => ImageSource::Url { url: url.clone() },
        }
    }
}

/// A content block within a stored message. JSON payloads are carried as JSON text.
#[derive(Debug)]
pub enum ContentBlock {
    /// Text content.
    Text { text: String },
    /// Tool use request from the assistant; `input` is JSON text.
    ToolUse { id: String, name: String, input: String },
    /// Tool result from execution.
    ToolResult { tool_use_id: String, name: String, content: String, is_error: bool },
    /// Image content.
    Image { source: ImageSource },
    /// A file attachment: a stored file reference, a URL, or inline base64 data.
    File {
        file_id: Option<String>,
        url: Option<String>,
        mime_type: Option<String>,
        data: Option<String>,
    },
}

/// Abstract value of a [`ContentBlock`].
pub enum BlockView {
    Text { text: Seq<char> },
    ToolUse { id: Seq<char>, name: Seq<char>, input: Seq<char> },
    ToolResult { tool_use_id: Seq<char>, name: Seq<char>, content: Seq<char>, is_error: bool },
    Image { source: ImageSourceView },
    File {
        file_id: Option<Seq<char>>,
        url: Option<Seq<char>>,
        mime_type: Option<Seq<char>>,
        data: Option<Seq<char>>,
    },
}

impl View for ContentBlock {
    type V = BlockView;

    open spec fn view(&self) -> BlockView {
        match self {
            ContentBlock::Text { text } => BlockView::Text { text: text@ },
            ContentBlock::ToolUse { id, name, input } => BlockView::ToolUse {
                id: id@,
                name: name@,
                input: input@,
            },
            ContentBlock::ToolResult { tool_use_id, name, content, is_error } =>
                BlockView::ToolResult {
                    tool_use_id: tool_use_id@,
                    name: name@,
                    content: content@,
                    is_error: *is_error,
                },
            ContentBlock::Image { source } => BlockView::Image { source: source@ },
            ContentBlock::File { file_id, url, mime_type, data } => BlockView::File {
                file_id: opt_str_view(*file_id),
                url: opt_str_view(*url),
                mime_type: opt_str_view(*mime_type),
                data: opt_str_view(*data),
            },
        }
    }
}

impl Clone for ContentBlock {
    fn clone(&self) -> (r: Self)
        ensures
            r@ == self@,
    {
        match self {
            ContentBlock::Text { text } => ContentBlock::Text { text: text.clone() },
            ContentBlock::ToolUse { id, name, input } => ContentBlock::ToolUse {
                id: id.clone(),
                name: name.clone(),
                input: input.clone(),
            },
            ContentBlock::ToolResult { tool_use_id, name, content, is_error } =>
                ContentBlock::ToolResult {
                    tool_use_id: tool_use_id.clone(),
                    name: name.clone(),
                    content: content.clone(),
                    is_error: *is_error,
                },
            ContentBlock::Image { source } => ContentBlock::Image { source: source.clone() },
            ContentBlock::File { file_id, url, mime_type, data } => ContentBlock::File {
                file_id: clone_opt_string(file_id),
                url: clone_opt_string(url),
                mime_type: clone_opt_string(mime_type),
                data: clone_opt_string(data),
            },
        }
    }
}

/// Abstract value of a sequence of blocks.
pub open spec fn blocks_view(v: Seq<ContentBlock>) -> Seq<BlockView> {
    v.map_values(|b: ContentBlock| b@)
}

/// Clones a vector of blocks, keeping every block's value.
pub fn clone_blocks(v: &Vec<ContentBlock>) -> (r: Vec<ContentBlock>)
    ensures
        blocks_view(r@) == blocks_view(v@),
{
    let mut r: Vec<ContentBlock> = Vec::new();
    let mut i: usize = 0;
    while i < v.len()
        invariant
            i <= v.len(),
            r@.len() == i,
            forall|j: int| 0 <= j < i ==> (#[trigger] r@[j])@ == v@[j]@,
        decreases v.len() - i,
    {
        r.push(v[i].clone());
        i = i + 1;
    }
    assert(blocks_view(r@) =~= blocks_view(v@));
    r
}

/// Whether a block is a tool use.
pub open spec fn spec_is_tool_use(b: BlockView) -> bool {
    b is ToolUse
}

/// Whether a block is a tool result.
pub open spec fn spec_is_tool_result(b: BlockView) -> bool {
    b is ToolResult
}

impl ContentBlock {
    /// Create a text content block.
    pub fn text(text: &str) -> (r: Self)
        ensures
            r@ == (BlockView::Text { text: text@ }),
    {
        ContentBlock::Text { text: text.to_string() }
    }

    /// Create a tool use content block; `input` is JSON text.
    pub fn tool_use(id: &str, name: &str, input: &str) -> (r: Self)
        ensures
            r@ == (BlockView::ToolUse { id: id@, name: name@, input: input@ }),
    {
        ContentBlock::ToolUse { id: id.to_string(), name: name.to_string(), input: input.to_string() }
    }

    /// Create a successful tool result content block.
    pub fn tool_result(tool_use_id: &str, name: &str, content: &str) -> (r: Self)
        ensures
            r@ == (BlockView::ToolResult {
                tool_use_id: tool_use_id@,
                name: name@,
                content: content@,
                is_error: false,
            }),
    {
        ContentBlock::ToolResult {
            tool_use_id: tool_use_id.to_string(),
            name: name.to_string(),
            content: content.to_string(),
            is_error: false,
        }
    }

    /// Create a failed tool result content block.
    pub fn tool_error(tool_use_id: &str, name: &str, error: &str) -> (r: Self)
        ensures
            r@ == (BlockView::ToolResult {
                tool_use_id: tool_use_id@,
                name: name@,
                content: error@,
                is_error: true,
            }),
    {
        ContentBlock::ToolResult {
            tool_use_id: tool_use_id.to_string(),
            name: name.to_string(),
            content: error.to_string(),
            is_error: true,
        }
    }

    /// Whether this is a text block.
    pub fn is_text(&self) -> (r: bool)
        ensures
            r <==> self@ is Text,
    {
        match self {
            ContentBlock::Text { .. } => true,
            _ => false,
        }
    }

    /// Whether this is a tool use block.
    pub fn is_tool_use(&self) -> (r: bool)
        ensures
            r <==> spec_is_tool_use(self@),
    {
        match self {
            ContentBlock::ToolUse { .. } => true,
            _ => false,
        }
    }

    /// Whether this is a tool result block.
    pub fn is_tool_result(&self) -> (r: bool)
        ensures
            r <==> spec_is_tool_result(self@),
    {
        match self {
            ContentBlock::ToolResult { .. } => true,
            _ => false,
        }
    }

    /// The text if this is a text block.
    pub fn as_text(&self) -> (r: Option<&String>)
        ensures
            match self@ {
                BlockView::Text { text } => r matches Some(s) && s@ == text,
                _ => r is None,
            },
    {
        match self {
            ContentBlock::Text { text } => Some(text),
            _ => None,
        }
    }

    /// The id, name and input if this is a tool use block.
    pub fn as_tool_use(&self) -> (r: Option<(&String, &String, &String)>)
        ensures
            match self@ {
                BlockView::ToolUse { id, name, input } => r matches Some(t) && t.0@ == id
                    && t.1@ == name && t.2@ == input,
                _ => r is None,
            },
    {
        match self {
            ContentBlock::ToolUse { id, name, input } => Some((id, name, input)),
            _ => None,
        }
    }
}

/// Content of a message: a simple string or structured blocks.
#[derive(Debug)]
pub enum MessageContent {
    /// Simple text content.
    Text(String),
    /// Structured content blocks.
    Blocks(Vec<ContentBlock>),
}

/// Abstract value of a [`MessageContent`].
pub enum ContentView {
    Text(Seq<char>),
    Blocks(Seq<BlockView>),
}

impl View for MessageContent {
    type V = ContentView;

    open spec fn view(&self) -> ContentView {
        match self {
            MessageContent::Text(t) => ContentView::Text(t@),
            MessageContent::Blocks(b) => ContentView::Blocks(blocks_view(b@)),
        }
    }
}

impl Clone for MessageContent {
    fn clone(&self) -> (r: Self)
        ensures
            r@ == self@,
    {
        match self {
            MessageContent::Text(t) => MessageContent::Text(t.clone()),
            MessageContent::Blocks(b) => MessageContent::Blocks(clone_blocks(b)),
        }
    }
}

impl From<String> for MessageContent {
    fn from(text: String) -> (r: Self) {
        MessageContent::Text(text)
    }
}

impl vstd::std_specs::convert::FromSpecImpl<String> for MessageContent {
    open spec fn obeys_from_spec() -> bool {
        true
    }

    open spec fn from_spec(text: String) -> Self {
        MessageContent::Text(text)
    }
}

impl From<Vec<ContentBlock>> for MessageContent {
    fn from(blocks: Vec<ContentBlock>) -> (r: Self) {
        MessageContent::Blocks(blocks)
    }
}

impl vstd::std_specs::convert::FromSpecImpl<Vec<ContentBlock>> for MessageContent {
    open spec fn obeys_from_spec() -> bool {
        true
    }

    open spec fn from_spec(blocks: Vec<ContentBlock>) -> Self {
        MessageContent::Blocks(blocks)
    }
}

impl Default for MessageContent {
    fn default() -> (r: Self)
        ensures
            r@ == ContentView::Text(Seq::empty()),
    {
        MessageContent::Text(String::new())
    }
}

/// The text of the text blocks, concatenated in order.
pub open spec fn spec_blocks_text(blocks: Seq<BlockView>) -> Seq<char>
    decreases blocks.len(),
{
    if blocks.len() == 0 {
        Seq::empty()
    } else {
        spec_blocks_text(blocks.drop_last()) + match blocks.last() {
            BlockView::Text { text } => text,
            _ => Seq::empty(),
        }
    }
}

/// The text of a content value: the string itself, or its text blocks concatenated.
pub open spec fn spec_content_text(c: ContentView) -> Seq<char> {
    match c {
        ContentView::Text(t) => t,
        ContentView::Blocks(b) => spec_blocks_text(b),
    }
}

/// The blocks of a content value: a simple string becomes one text block.
pub open spec fn spec_content_blocks(c: ContentView) -> Seq<BlockView> {
    match c {
        ContentView::Text(t) => seq![BlockView::Text { text: t }],
        ContentView::Blocks(b) => b,
    }
}

/// Whether some block is a tool use.
pub open spec fn spec_any_tool_use(b: Seq<BlockView>) -> bool {
    exists|i: int| 0 <= i < b.len() && spec_is_tool_use(#[trigger] b[i])
}

/// Whether some block is a tool result.
pub open spec fn spec_any_tool_result(b: Seq<BlockView>) -> bool {
    exists|i: int| 0 <= i < b.len() && spec_is_tool_result(#[trigger] b[i])
}

/// Whether a content value holds a tool use.
pub open spec fn spec_has_tool_uses(c: ContentView) -> bool {
    match c {
        ContentView::Text(_) => false,
        ContentView::Blocks(b) => spec_any_tool_use(b),
    }
}

/// Whether a content value holds a tool result.
pub open spec fn spec_has_tool_results(c: ContentView) -> bool {
    match c {
        ContentView::Text(_) => false,
        ContentView::Blocks(b) => spec_any_tool_result(b),
    }
}

/// Whether some block satisfies the tool-use test.
pub fn any_tool_use(blocks: &Vec<ContentBlock>) -> (r: bool)
    ensures
        r <==> exists|i: int| 0 <= i < blocks@.len() && spec_is_tool_use(#[trigger] blocks@[i]@),
{
    let mut i: usize = 0;
    while i < blocks.len()
        invariant
            i <= blocks.len(),
            forall|j: int| 0 <= j < i ==> !spec_is_tool_use(#[trigger] blocks@[j]@),
        decreases blocks.len() - i,
    {
        if blocks[i].is_tool_use() {
            return true;
        }
        i = i + 1;
    }
    false
}

/// Whether some block satisfies the tool-result test.
pub fn any_tool_result(blocks: &Vec<ContentBlock>) -> (r: bool)
    ensures
        r <==> exists|i: int| 0 <= i < blocks@.len() && spec_is_tool_result(#[trigger] blocks@[i]@),
{
    let mut i: usize = 0;
    while i < blocks.len()
        invariant
            i <= blocks.len(),
            forall|j: int| 0 <= j < i ==> !spec_is_tool_result(#[trigger] blocks@[j]@),
        decreases blocks.len() - i,
    {
        if blocks[i].is_tool_result() {
            return true;
        }
        i = i + 1;
    }
    false
}

impl MessageContent {
    /// Create from a simple string.
    pub fn text(text: &str) -> (r: Self)
        ensures
            r@ == ContentView::Text(text@),
    {
        MessageContent::Text(text.to_string())
    }

    /// Create from content blocks.
    pub fn blocks(blocks: Vec<ContentBlock>) -> (r: Self)
        ensures
            r@ == ContentView::Blocks(blocks_view(blocks@)),
    {
        MessageContent::Blocks(blocks)
    }

    /// The content as a string: the text itself, or the text blocks concatenated.
    pub fn as_string(&self) -> (r: String)
        ensures
            r@ == spec_content_text(self@),
    {
        match self {
            MessageContent::Text(t) => t.clone(),
            MessageContent::Blocks(blocks) => {
                let mut r = String::new();
                let mut i: usize = 0;
                let ghost bv = blocks_view(blocks@);
                while i < blocks.len()
                    invariant
                        i <= blocks.len(),
                        bv == blocks_view(blocks@),
                        r@ == spec_blocks_text(bv.take(i as int)),
                    decreases blocks.len() - i,
                {
                    assert(bv.take(i + 1).drop_last() =~= bv.take(i as int));
                    match &blocks[i] {
                        ContentBlock::Text { text } => {
                            r.append(text.as_str());
                        },
                        _ => {},
                    }
                    i = i + 1;
                }
                assert(bv.take(i as int) =~= bv);
                r
            },
        }
    }

    /// All content blocks: a simple string becomes one text block.
    pub fn as_blocks(&self) -> (r: Vec<ContentBlock>)
        ensures
            blocks_view(r@) == spec_content_blocks(self@),
    {
        match self {
            MessageContent::Text(t) => {
                let r = vec![ContentBlock::Text { text: t.clone() }];
                assert(blocks_view(r@) =~= spec_content_blocks(self@));
                r
            },
            MessageContent::Blocks(b) => clone_blocks(b),
        }
    }

    /// Whether this content holds any tool use.
    pub fn has_tool_uses(&self) -> (r: bool)
        ensures
            r <==> spec_has_tool_uses(self@),
    {
        match self {
            MessageContent::Text(_) => false,
            MessageContent::Blocks(blocks) => {
                let r = any_tool_use(blocks);
                proof {
                    let bv = blocks_view(blocks@);
                    assert(forall|i: int| 0 <= i < bv.len() ==> #[trigger] bv[i] == blocks@[i]@);
                    if r {
                        let i = choose|i: int| 0 <= i < blocks@.len() && spec_is_tool_use(#[trigger] blocks@[i]@);
                        assert(bv[i] == blocks@[i]@);
                    }
                }
                r
            },
        }
    }

    /// Whether this content holds any tool result.
    pub fn has_tool_results(&self) -> (r: bool)
        ensures
            r <==> spec_has_tool_results(self@),
    {
        match self {
            MessageContent::Text(_) => false,
            MessageContent::Blocks(blocks) => {
                let r = any_tool_result(blocks);
                proof {
                    let bv = blocks_view(blocks@);
                    assert(forall|i: int| 0 <= i < bv.len() ==> #[trigger] bv[i] == blocks@[i]@);
                    if r {
                        let i = choose|i: int| 0 <= i < blocks@.len() && spec_is_tool_result(#[trigger] blocks@[i]@);
                        assert(bv[i] == blocks@[i]@);
                    }
                }
                r
            },
        }
    }

    /// All tool use blocks of this content, in order.
    pub fn tool_uses(&self) -> (r: Vec<&ContentBlock>)
        ensures
            r@.map_values(|b: &ContentBlock| b@) == match self@ {
                ContentView::Text(_) => Seq::<BlockView>::empty(),
                ContentView::Blocks(b) => b.filter(|x: BlockView| spec_is_tool_use(x)),
            },
    {
        match self {
            MessageContent::Text(_) => {
                let r: Vec<&ContentBlock> = Vec::new();
                assert(r@.map_values(|b: &ContentBlock| b@) =~= Seq::<BlockView>::empty());
                r
            },
            MessageContent::Blocks(blocks) => {
                let mut r: Vec<&ContentBlock> = Vec::new();
                let mut i: usize = 0;
                let ghost bv = blocks_view(blocks@);
                while i < blocks.len()
                    invariant
                        i <= blocks.len(),
                        bv == blocks_view(blocks@),
                        r@.map_values(|b: &ContentBlock| b@) == bv.take(i as int).filter(|x: BlockView| spec_is_tool_use(x)),
                    decreases blocks.len() - i,
                {
                    reveal_with_fuel(Seq::filter, 1);
                    assert(bv.take(i + 1).drop_last() =~= bv.take(i as int));
                    let ghost before = r@;
                    if blocks[i].is_tool_use() {
                        r.push(&blocks[i]);
                        assert(r@.map_values(|b: &ContentBlock| b@) =~= before.map_values(|b: &ContentBlock| b@).push(bv[i as int]));
                    }
                    i = i + 1;
                }
                assert(bv.take(i as int) =~= bv);
                r
            },
        }
    }
}

} // verus!
