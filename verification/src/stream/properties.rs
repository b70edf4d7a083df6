//! What streaming gathers: the deltas of one block, applied in order, give one builder
//! whose text (or tool call arguments) is the deltas joined, and one response block.

use vstd::prelude::*;
use crate::stream::executor::{
    spec_apply_blocks, spec_built_blocks, spec_stream_call_arguments, BuilderView, StreamBlockView,
};
use crate::tensorzero::response::{spec_arguments_string, spec_json_reformat, ResponseBlockView, ToolCallView};

verus! {

/// The text of the text deltas, joined in order.
pub open spec fn spec_delta_text(ds: Seq<StreamBlockView>) -> Seq<char>
    decreases ds.len(),
{
    if ds.len() == 0 {
        Seq::empty()
    } else {
        spec_delta_text(ds.drop_last()) + match ds.last() {
            StreamBlockView::Text { text, .. } => text,
            _ => Seq::empty(),
        }
    }
}

/// The raw arguments of the tool call deltas, joined in order.
pub open spec fn spec_delta_arguments(ds: Seq<StreamBlockView>) -> Seq<char>
    decreases ds.len(),
{
    if ds.len() == 0 {
        Seq::empty()
    } else {
        spec_delta_arguments(ds.drop_last()) + match ds.last() {
            StreamBlockView::ToolCall { raw_arguments, .. } => raw_arguments,
            _ => Seq::empty(),
        }
    }
}

/// Whether every delta is a text delta of the block `id`.
pub open spec fn spec_text_deltas_of(ds: Seq<StreamBlockView>, id: Seq<char>) -> bool {
    forall|i: int| 0 <= i < ds.len() ==> spec_is_text_delta_of(#[trigger] ds[i], id)
}

/// Whether a delta is a text delta of the block `id`.
pub open spec fn spec_is_text_delta_of(d: StreamBlockView, id: Seq<char>) -> bool {
    d matches StreamBlockView::Text { id: k, .. } && k == id
}

/// Whether every delta is a tool call delta of the call `id`.
pub open spec fn spec_tool_call_deltas_of(ds: Seq<StreamBlockView>, id: Seq<char>) -> bool {
    forall|i: int| 0 <= i < ds.len() ==> spec_is_tool_call_delta_of(#[trigger] ds[i], id)
}

/// Whether a delta is a tool call delta of the call `id`.
pub open spec fn spec_is_tool_call_delta_of(d: StreamBlockView, id: Seq<char>) -> bool {
    d matches StreamBlockView::ToolCall { id: k, .. } && k == id
}

/// The builder of a text block with the given text.
pub open spec fn spec_text_builder(id: Seq<char>, text: Seq<char>) -> BuilderView {
    BuilderView {
        block_id: id,
        text: Some(text),
        tool_call_id: None,
        tool_call_name: None,
        tool_call_arguments: None,
        complete: false,
    }
}

/// The builder of a tool call with the given name and arguments.
pub open spec fn spec_tool_call_builder(id: Seq<char>, name: Seq<char>, arguments: Seq<char>) -> BuilderView {
    BuilderView {
        block_id: id,
        text: None,
        tool_call_id: Some(id),
        tool_call_name: Some(name),
        tool_call_arguments: Some(arguments),
        complete: false,
    }
}

/// Streaming the text deltas of one block gathers them into one builder whose text
/// is the deltas joined in order; it starts one block, and finishing it gives one text
/// block with that text.
pub proof fn streamed_text_accumulates(id: Seq<char>, ds: Seq<StreamBlockView>)
    requires
        ds.len() > 0,
        spec_text_deltas_of(ds, id),
    ensures
        spec_apply_blocks(Seq::empty(), ds).0 == seq![(id, spec_text_builder(id, spec_delta_text(ds)))],
        spec_apply_blocks(Seq::empty(), ds).2 == 1,
        spec_built_blocks(spec_apply_blocks(Seq::empty(), ds).0) == seq![
            ResponseBlockView::Text { text: spec_delta_text(ds) },
        ],
    decreases ds.len(),
{
    let t = ds.drop_last();
    let b = ds.last();
    assert(spec_is_text_delta_of(ds[ds.len() - 1], id));
    let prev = spec_apply_blocks(Seq::empty(), t);
    if ds.len() == 1 {
        assert(t.len() == 0);
        assert(prev.0.len() == 0);
        assert(spec_delta_text(t) == Seq::<char>::empty());
        assert(spec_delta_text(ds) =~= b->Text_text);
    } else {
        assert forall|i: int| 0 <= i < t.len() implies spec_is_text_delta_of(#[trigger] t[i], id) by {
            assert(t[i] == ds[i]);
        }
        streamed_text_accumulates(id, t);
        assert(prev.0[0].0 == id);
        let entries = prev.0;
        let c = choose|c: int| 0 <= c < entries.len() && (#[trigger] entries[c]).0 == id;
        assert(c == 0);
    }
    let e = spec_apply_blocks(Seq::empty(), ds).0;
    assert(e =~= seq![(id, spec_text_builder(id, spec_delta_text(ds)))]);
    assert(e.drop_last() =~= Seq::<(Seq<char>, BuilderView)>::empty());
    assert(spec_built_blocks(e.drop_last()) == Seq::<ResponseBlockView>::empty());
    assert(spec_built_blocks(e) =~= seq![ResponseBlockView::Text { text: spec_delta_text(ds) }]);
}

/// Streaming the deltas of one tool call gathers them into one builder named by the
/// first delta, whose arguments are the deltas' arguments joined in order; it starts one
/// block, and finishing it gives one tool call with those arguments (parsed when they
/// parse).
pub proof fn streamed_tool_call_accumulates(id: Seq<char>, name: Seq<char>, ds: Seq<StreamBlockView>)
    requires
        ds.len() > 0,
        spec_tool_call_deltas_of(ds, id),
        ds[0] matches StreamBlockView::ToolCall { raw_name, .. } && raw_name == name,
    ensures
        spec_apply_blocks(Seq::empty(), ds).0 == seq![
            (id, spec_tool_call_builder(id, name, spec_delta_arguments(ds))),
        ],
        spec_apply_blocks(Seq::empty(), ds).2 == 1,
        spec_built_blocks(spec_apply_blocks(Seq::empty(), ds).0) == seq![
            ResponseBlockView::ToolCall(ToolCallView {
                id,
                name: Some(name),
                arguments: spec_json_reformat(spec_delta_arguments(ds)),
                raw_name: Some(name),
                raw_arguments: Some(spec_delta_arguments(ds)),
            }),
        ],
    decreases ds.len(),
{
    let t = ds.drop_last();
    let b = ds.last();
    assert(spec_is_tool_call_delta_of(ds[ds.len() - 1], id));
    let prev = spec_apply_blocks(Seq::empty(), t);
    if ds.len() == 1 {
        assert(t.len() == 0);
        assert(prev.0.len() == 0);
        assert(spec_delta_arguments(t) == Seq::<char>::empty());
        assert(spec_delta_arguments(ds) =~= b->ToolCall_raw_arguments);
    } else {
        assert forall|i: int| 0 <= i < t.len() implies spec_is_tool_call_delta_of(#[trigger] t[i], id) by {
            assert(t[i] == ds[i]);
        }
        assert(t[0] == ds[0]);
        streamed_tool_call_accumulates(id, name, t);
        assert(prev.0[0].0 == id);
        let entries = prev.0;
        let c = choose|c: int| 0 <= c < entries.len() && (#[trigger] entries[c]).0 == id;
        assert(c == 0);
    }
    let e = spec_apply_blocks(Seq::empty(), ds).0;
    assert(e =~= seq![(id, spec_tool_call_builder(id, name, spec_delta_arguments(ds)))]);
    assert(e.drop_last() =~= Seq::<(Seq<char>, BuilderView)>::empty());
    assert(spec_built_blocks(e.drop_last()) == Seq::<ResponseBlockView>::empty());
    let a = spec_delta_arguments(ds);
    assert(spec_built_blocks(e) =~= seq![
        ResponseBlockView::ToolCall(ToolCallView {
            id,
            name: Some(name),
            arguments: spec_json_reformat(a),
            raw_name: Some(name),
            raw_arguments: Some(a),
        }),
    ]);
}

/// A streamed tool call runs with its arguments as JSON reads them: when its
/// arguments string parses, the call gets exactly the parsed arguments; only when it
/// does not parse does it get `null`.
pub proof fn streamed_calls_run_with_their_arguments(tc: ToolCallView)
    ensures
        match spec_json_reformat(spec_arguments_string(tc)) {
            Some(a) => spec_stream_call_arguments(tc) == a,
            None => spec_stream_call_arguments(tc) == "null"@,
        },
{
}

} // verus!
