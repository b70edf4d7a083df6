//! Conversion between stored messages and gateway input messages.

use vstd::prelude::*;
use crate::models::content::{
    blocks_view, spec_any_tool_result, spec_any_tool_use, spec_is_tool_result, spec_is_tool_use,
    any_tool_result, any_tool_use, BlockView, ContentBlock, ContentView, MessageContent,
};
use crate::models::message::{messages_view, Message, MessageView, Role};
use crate::tensorzero::client::{spec_starts_with, str_starts_with};
use crate::tensorzero::request::{
    input_blocks_view, input_messages_view, InputBlockView, InputContentBlock, InputMessage,
    InputMessageView, MessageRole,
};
use crate::tensorzero::response::{
    response_blocks_view, spec_parse_arguments, spec_tool_name, ContentBlock as TzContentBlock,
    ResponseBlockView,
};

verus! {

/// The wire role of a stored role.
pub open spec fn spec_wire_role(role: Role) -> MessageRole {
    match role {
        Role::User => MessageRole::User,
        Role::Assistant => MessageRole::Assistant,
    }
}

/// Whether an optional MIME type names an image.
pub open spec fn spec_is_image_mime(mime: Option<Seq<char>>) -> bool {
    mime matches Some(m) && spec_starts_with(m, "image/"@)
}

/// The text that stands for a file block, if any: a URL is preferred, then inline
/// data with its MIME type, then a stored-file reference.
pub open spec fn spec_file_text(
    file_id: Option<Seq<char>>,
    url: Option<Seq<char>>,
    mime_type: Option<Seq<char>>,
    data: Option<Seq<char>>,
) -> Option<Seq<char>> {
    if url is Some {
        if spec_is_image_mime(mime_type) {
            Some("[Image: "@ + url->0 + "]"@)
        } else {
            Some("[File: "@ + url->0 + "]"@)
        }
    } else if data is Some && mime_type is Some {
        if spec_is_image_mime(mime_type) {
            Some("[Attached image: "@ + mime_type->0 + "]"@)
        } else {
            Some("[Attached file: "@ + mime_type->0 + "]"@)
        }
    } else {
        match file_id {
            Some(id) => Some("[File reference: "@ + id + "]"@),
            None => None,
        }
    }
}

/// The input block that stands for a stored block; images have none.
pub open spec fn spec_convert_block(b: BlockView) -> Option<InputBlockView> {
    match b {
        BlockView::Text { text } => Some(InputBlockView::Text { text }),
        BlockView::ToolUse { id, name, input } => Some(InputBlockView::ToolCall { id, name, arguments: input }),
        BlockView::ToolResult { tool_use_id, name, content, .. } => Some(
            InputBlockView::ToolResult { id: tool_use_id, name, result: content },
        ),
        BlockView::Image { .. } => None,
        BlockView::File { file_id, url, mime_type, data } => match spec_file_text(file_id, url, mime_type, data) {
            Some(text) => Some(InputBlockView::Text { text }),
            None => None,
        },
    }
}

/// An optional value as a sequence of zero or one elements.
pub open spec fn opt_seq<A>(o: Option<A>) -> Seq<A> {
    match o {
        Some(x) => seq![x],
        None => Seq::empty(),
    }
}

/// The input blocks that stand for stored blocks, in order, skipping those with none.
pub open spec fn spec_convert_blocks(bs: Seq<BlockView>) -> Seq<InputBlockView>
    decreases bs.len(),
{
    if bs.len() == 0 {
        Seq::empty()
    } else {
        spec_convert_blocks(bs.drop_last()) + opt_seq(spec_convert_block(bs.last()))
    }
}

/// The input message that stands for a stored message, block by block.
pub open spec fn spec_convert_message(m: MessageView) -> InputMessageView {
    InputMessageView {
        role: spec_wire_role(m.role),
        content: match m.content {
            ContentView::Text(t) => seq![InputBlockView::Text { text: t }],
            ContentView::Blocks(bs) => spec_convert_blocks(bs),
        },
    }
}

/// Whether content holds both tool uses and tool results: the unified storage format.
pub open spec fn spec_is_unified(c: ContentView) -> bool {
    match c {
        ContentView::Text(_) => false,
        ContentView::Blocks(bs) => spec_any_tool_use(bs) && spec_any_tool_result(bs),
    }
}

/// A buffer flushed as a message when it is not empty.
pub open spec fn spec_flush(role: MessageRole, buf: Seq<InputBlockView>) -> Seq<InputMessageView> {
    if buf.len() > 0 {
        seq![InputMessageView { role, content: buf }]
    } else {
        Seq::empty()
    }
}

/// The state after splitting the blocks in order: the messages emitted so far, the
/// assistant buffer and the user buffer. A tool result flushes the assistant buffer
/// and joins the user buffer; any other block that converts flushes the user buffer
/// and joins the assistant buffer; a block that converts to nothing changes nothing.
pub open spec fn spec_split_state(bs: Seq<BlockView>) -> (Seq<InputMessageView>, Seq<InputBlockView>, Seq<InputBlockView>)
    decreases bs.len(),
{
    if bs.len() == 0 {
        (Seq::empty(), Seq::empty(), Seq::empty())
    } else {
        let prev = spec_split_state(bs.drop_last());
        let b = bs.last();
        let conv = opt_seq(spec_convert_block(b));
        if spec_convert_block(b) is None {
            prev
        } else if spec_is_tool_result(b) {
            (prev.0 + spec_flush(MessageRole::Assistant, prev.1), Seq::empty(), prev.2 + conv)
        } else {
            (prev.0 + spec_flush(MessageRole::User, prev.2), prev.1 + conv, Seq::empty())
        }
    }
}

/// The messages that a unified assistant message splits into.
pub open spec fn spec_split(c: ContentView) -> Seq<InputMessageView> {
    match c {
        ContentView::Text(t) => seq![InputMessageView {
            role: MessageRole::Assistant,
            content: seq![InputBlockView::Text { text: t }],
        }],
        ContentView::Blocks(bs) => {
            let st = spec_split_state(bs);
            st.0 + spec_flush(MessageRole::Assistant, st.1) + spec_flush(MessageRole::User, st.2)
        },
    }
}

/// The input messages that stand for one stored message: a unified assistant message
/// is split, any other message converted as it is.
pub open spec fn spec_message_inputs(m: MessageView) -> Seq<InputMessageView> {
    if m.role == Role::Assistant && spec_is_unified(m.content) {
        spec_split(m.content)
    } else {
        seq![spec_convert_message(m)]
    }
}

/// The input messages that stand for a stored history, in order.
pub open spec fn spec_convert_messages(ms: Seq<MessageView>) -> Seq<InputMessageView>
    decreases ms.len(),
{
    if ms.len() == 0 {
        Seq::empty()
    } else {
        spec_convert_messages(ms.drop_last()) + spec_message_inputs(ms.last())
    }
}

/// Builds `prefix + middle + suffix`.
fn bracketed(prefix: &str, middle: &String, suffix: &str) -> (r: String)
    ensures
        r@ == prefix@ + middle@ + suffix@,
{
    let mut r = prefix.to_string();
    r.append(middle.as_str());
    r.append(suffix);
    r
}

/// Whether an optional MIME type names an image.
fn is_image_mime(mime: &Option<String>) -> (r: bool)
    ensures
        r == spec_is_image_mime(crate::tensorzero::request::opt_str_view(*mime)),
{
    match mime {
        Some(m) => str_starts_with(m.as_str(), "image/"),
        None => false,
    }
}

/// The input block that stands for a stored block; images have none.
pub fn convert_content_block(block: &ContentBlock) -> (r: Option<InputContentBlock>)
    ensures
        match r {
            Some(b) => spec_convert_block(block@) == Some(b@),
            None => spec_convert_block(block@) is None,
        },
        match block@ {
            BlockView::ToolUse { id, name, input } => r matches Some(b)
                && b@ == (InputBlockView::ToolCall { id, name, arguments: input }),
            BlockView::ToolResult { tool_use_id, name, content, .. } => r matches Some(b)
                && b@ == (InputBlockView::ToolResult { id: tool_use_id, name, result: content }),
            BlockView::Text { text } => r matches Some(b) && b@ == (InputBlockView::Text { text }),
            _ => true,
        },
{
    match block {
        ContentBlock::Text { text } => Some(InputContentBlock::Text { text: text.clone() }),
        ContentBlock::ToolUse { id, name, input } => Some(InputContentBlock::ToolCall {
            id: id.clone(),
            name: name.clone(),
            arguments: input.clone(),
        }),
        ContentBlock::ToolResult { tool_use_id, name, content, .. } => Some(InputContentBlock::ToolResult {
            id: tool_use_id.clone(),
            name: name.clone(),
            result: content.clone(),
        }),
        ContentBlock::Image { .. } => None,
        ContentBlock::File { file_id, url, mime_type, data } => {
            if let Some(u) = url {
                if is_image_mime(mime_type) {
                    Some(InputContentBlock::Text { text: bracketed("[Image: ", u, "]") })
                } else {
                    Some(InputContentBlock::Text { text: bracketed("[File: ", u, "]") })
                }
            } else if data.is_some() && mime_type.is_some() {
                let m = mime_type.as_ref().unwrap();
                if is_image_mime(mime_type) {
                    Some(InputContentBlock::Text { text: bracketed("[Attached image: ", m, "]") })
                } else {
                    Some(InputContentBlock::Text { text: bracketed("[Attached file: ", m, "]") })
                }
            } else {
                match file_id {
                    Some(id) => Some(InputContentBlock::Text { text: bracketed("[File reference: ", id, "]") }),
                    None => None,
                }
            }
        },
    }
}

/// Appends the converted form of a block, if it has one.
fn push_converted(buf: &mut Vec<InputContentBlock>, block: &ContentBlock)
    ensures
        input_blocks_view(final(buf)@) == input_blocks_view(old(buf)@) + opt_seq(spec_convert_block(block@)),
{
    let ghost before = input_blocks_view(buf@);
    match convert_content_block(block) {
        Some(b) => {
            buf.push(b);
            assert(input_blocks_view(buf@) =~= before + opt_seq(spec_convert_block(block@)));
        },
        None => {
            assert(input_blocks_view(buf@) =~= before + opt_seq(spec_convert_block(block@)));
        },
    }
}

/// The input blocks that stand for stored blocks, in order.
fn convert_blocks(blocks: &Vec<ContentBlock>) -> (r: Vec<InputContentBlock>)
    ensures
        input_blocks_view(r@) == spec_convert_blocks(blocks_view(blocks@)),
{
    let ghost bv = blocks_view(blocks@);
    let mut r: Vec<InputContentBlock> = Vec::new();
    let mut i: usize = 0;
    while i < blocks.len()
        invariant
            i <= blocks@.len(),
            bv == blocks_view(blocks@),
            input_blocks_view(r@) == spec_convert_blocks(bv.take(i as int)),
        decreases blocks@.len() - i,
    {
        assert(bv.take(i + 1).drop_last() =~= bv.take(i as int));
        push_converted(&mut r, &blocks[i]);
        i = i + 1;
    }
    assert(bv.take(i as int) =~= bv);
    r
}

/// Convert a single stored message to a gateway input message.
pub fn convert_message_to_input(message: &Message) -> (r: InputMessage)
    ensures
        r@ == spec_convert_message(message@),
{
    let role = match message.role {
        Role::User => MessageRole::User,
        Role::Assistant => MessageRole::Assistant,
    };
    match &message.content {
        MessageContent::Text(text) => {
            let r = InputMessage { role, content: vec![InputContentBlock::Text { text: text.clone() }] };
            assert(r@.content =~= seq![InputBlockView::Text { text: text@ }]);
            r
        },
        MessageContent::Blocks(blocks) => InputMessage { role, content: convert_blocks(blocks) },
    }
}

/// Whether content holds both tool uses and tool results (the unified format, in which
/// one assistant message stores a whole tool execution loop).
pub fn is_unified_format(content: &MessageContent) -> (r: bool)
    ensures
        r == spec_is_unified(content@),
{
    match content {
        MessageContent::Text(_) => false,
        MessageContent::Blocks(blocks) => {
            let u = any_tool_use(blocks);
            let t = any_tool_result(blocks);
            proof {
                let bv = blocks_view(blocks@);
                assert(forall|i: int| 0 <= i < bv.len() ==> #[trigger] bv[i] == blocks@[i]@);
                if u {
                    let i = choose|i: int| 0 <= i < blocks@.len() && spec_is_tool_use(#[trigger] blocks@[i]@);
                    assert(bv[i] == blocks@[i]@);
                }
                if t {
                    let i = choose|i: int| 0 <= i < blocks@.len() && spec_is_tool_result(#[trigger] blocks@[i]@);
                    assert(bv[i] == blocks@[i]@);
                }
            }
            u && t
        },
    }
}

/// Moves a non-empty buffer out as a message with the given role.
fn flush(result: &mut Vec<InputMessage>, role: MessageRole, buf: &mut Vec<InputContentBlock>)
    ensures
        input_messages_view(final(result)@) == input_messages_view(old(result)@) + spec_flush(role, input_blocks_view(old(buf)@)),
        final(buf)@.len() == 0,
{
    let ghost before = input_messages_view(result@);
    let ghost content = input_blocks_view(buf@);
    if buf.len() > 0 {
        let mut content_vec: Vec<InputContentBlock> = Vec::new();
        std::mem::swap(&mut content_vec, buf);
        result.push(InputMessage { role, content: content_vec });
        assert(input_messages_view(result@) =~= before + spec_flush(role, content));
    } else {
        assert(input_messages_view(result@) =~= before + spec_flush(role, content));
    }
}

/// Split a unified assistant message into alternating assistant messages (text, tool
/// uses, files) and user messages (tool results), keeping the blocks in order; a block
/// that converts to nothing (an image) is left out without ending a message.
pub fn split_unified_message(message: &Message) -> (r: Vec<InputMessage>)
    ensures
        input_messages_view(r@) == spec_split(message.content@),
{
    let blocks = match &message.content {
        MessageContent::Text(text) => {
            let r = vec![InputMessage {
                role: MessageRole::Assistant,
                content: vec![InputContentBlock::Text { text: text.clone() }],
            }];
            assert(r@[0]@.content =~= seq![InputBlockView::Text { text: text@ }]);
            assert(input_messages_view(r@) =~= spec_split(message.content@));
            return r;
        },
        MessageContent::Blocks(blocks) => blocks,
    };
    let ghost bv = blocks_view(blocks@);
    let mut result: Vec<InputMessage> = Vec::new();
    let mut assistant_buffer: Vec<InputContentBlock> = Vec::new();
    let mut user_buffer: Vec<InputContentBlock> = Vec::new();
    let mut i: usize = 0;
    while i < blocks.len()
        invariant
            i <= blocks@.len(),
            bv == blocks_view(blocks@),
            ({
                let st = spec_split_state(bv.take(i as int));
                &&& input_messages_view(result@) == st.0
                &&& input_blocks_view(assistant_buffer@) == st.1
                &&& input_blocks_view(user_buffer@) == st.2
            }),
        decreases blocks@.len() - i,
    {
        assert(bv.take(i + 1).drop_last() =~= bv.take(i as int));
        let block = &blocks[i];
        assert(bv.take(i + 1).last() == block@);
        if let Some(converted) = convert_content_block(block) {
            let ghost cv = converted@;
            if block.is_tool_result() {
                flush(&mut result, MessageRole::Assistant, &mut assistant_buffer);
                assert(input_blocks_view(assistant_buffer@) =~= Seq::<InputBlockView>::empty());
                let ghost ub = input_blocks_view(user_buffer@);
                user_buffer.push(converted);
                assert(input_blocks_view(user_buffer@) =~= ub + opt_seq(spec_convert_block(block@)));
            } else {
                flush(&mut result, MessageRole::User, &mut user_buffer);
                assert(input_blocks_view(user_buffer@) =~= Seq::<InputBlockView>::empty());
                let ghost ab = input_blocks_view(assistant_buffer@);
                assistant_buffer.push(converted);
                assert(input_blocks_view(assistant_buffer@) =~= ab + opt_seq(spec_convert_block(block@)));
            }
        }
        i = i + 1;
    }
    assert(bv.take(i as int) =~= bv);
    flush(&mut result, MessageRole::Assistant, &mut assistant_buffer);
    flush(&mut result, MessageRole::User, &mut user_buffer);
    result
}

/// Convert stored messages to gateway input messages. Unified assistant messages are
/// split into alternating assistant and user messages; any other message (including
/// the older format with separate tool-use and tool-result messages) is converted as it
/// is.
pub fn convert_messages_to_input(messages: &[Message]) -> (r: Vec<InputMessage>)
    ensures
        input_messages_view(r@) == spec_convert_messages(messages_view(messages@)),
{
    let ghost mv = messages_view(messages@);
    let mut result: Vec<InputMessage> = Vec::new();
    let mut i: usize = 0;
    while i < messages.len()
        invariant
            i <= messages@.len(),
            mv == messages_view(messages@),
            input_messages_view(result@) == spec_convert_messages(mv.take(i as int)),
        decreases messages@.len() - i,
    {
        assert(mv.take(i + 1).drop_last() =~= mv.take(i as int));
        let message = &messages[i];
        assert(mv.take(i + 1).last() == message@);
        let ghost before = input_messages_view(result@);
        if message.role == Role::Assistant && is_unified_format(&message.content) {
            let mut parts = split_unified_message(message);
            let ghost pv = input_messages_view(parts@);
            result.append(&mut parts);
            assert(input_messages_view(result@) =~= before + pv);
        } else {
            let m = convert_message_to_input(message);
            result.push(m);
            assert(input_messages_view(result@) =~= before + seq![spec_convert_message(message@)]);
        }
        i = i + 1;
    }
    assert(mv.take(i as int) =~= mv);
    result
}

/// The stored block that stands for a response block: text as text, a tool call as a
/// tool use named by its tool name (`unknown` if none) with its parsed arguments
/// (`null` if they do not parse).
pub open spec fn spec_response_block(b: ResponseBlockView) -> BlockView {
    match b {
        ResponseBlockView::Text { text } => BlockView::Text { text },
        ResponseBlockView::ToolCall(tc) => BlockView::ToolUse {
            id: tc.id,
            name: match spec_tool_name(tc) {
                Some(n) => n,
                None => "unknown"@,
            },
            input: match spec_parse_arguments(tc) {
                Some(a) => a,
                None => "null"@,
            },
        },
    }
}

/// The stored content that stands for response blocks: a lone text block becomes plain
/// text, anything else a list of blocks.
pub open spec fn spec_response_content(bs: Seq<ResponseBlockView>) -> ContentView {
    let blocks = bs.map_values(|b: ResponseBlockView| spec_response_block(b));
    if blocks.len() == 1 && blocks[0] is Text {
        ContentView::Text(blocks[0]->Text_text)
    } else {
        ContentView::Blocks(blocks)
    }
}

/// The stored block that stands for a response block.
pub fn convert_tz_block_to_content_block(block: &TzContentBlock) -> (r: ContentBlock)
    ensures
        r@ == spec_response_block(block@),
{
    match block {
        TzContentBlock::Text { text } => ContentBlock::Text { text: text.clone() },
        TzContentBlock::ToolCall(tc) => {
            let name = match tc.tool_name() {
                Some(n) => n.clone(),
                None => "unknown".to_string(),
            };
            let input = match tc.parse_arguments() {
                Ok(a) => a,
                Err(_) => "null".to_string(),
            };
            ContentBlock::ToolUse { id: tc.id.clone(), name, input }
        },
    }
}

/// The stored blocks that stand for response blocks, in order.
pub fn response_blocks_to_content_blocks(content: &[TzContentBlock]) -> (r: Vec<ContentBlock>)
    ensures
        blocks_view(r@) == response_blocks_view(content@).map_values(|b: ResponseBlockView| spec_response_block(b)),
{
    let ghost rv = response_blocks_view(content@);
    let mut r: Vec<ContentBlock> = Vec::new();
    let mut i: usize = 0;
    while i < content.len()
        invariant
            i <= content@.len(),
            rv == response_blocks_view(content@),
            blocks_view(r@) == rv.take(i as int).map_values(|b: ResponseBlockView| spec_response_block(b)),
        decreases content@.len() - i,
    {
        let b = convert_tz_block_to_content_block(&content[i]);
        let ghost before = blocks_view(r@);
        assert(rv[i as int] == content@[i as int]@);
        r.push(b);
        assert(blocks_view(r@) =~= before.push(spec_response_block(rv[i as int])));
        assert(blocks_view(r@) =~= rv.take(i + 1).map_values(|b: ResponseBlockView| spec_response_block(b)));
        i = i + 1;
    }
    assert(rv.take(i as int) =~= rv);
    r
}

/// Convert gateway response content to stored message content: a lone text block
/// becomes plain text, anything else a list of blocks.
pub fn convert_response_to_message_content(content: &[TzContentBlock]) -> (r: MessageContent)
    ensures
        r@ == spec_response_content(response_blocks_view(content@)),
{
    let blocks = response_blocks_to_content_blocks(content);
    if blocks.len() == 1 {
        if let ContentBlock::Text { text } = &blocks[0] {
            return MessageContent::Text(text.clone());
        }
    }
    MessageContent::Blocks(blocks)
}

} // verus!
