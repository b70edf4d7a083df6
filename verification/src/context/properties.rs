//! What history filtering keeps of a history (the messages it keeps come in their
//! order, within the configured limits, with tool calls and tool results together), and
//! what splitting a unified message gives (its blocks in order, in messages whose roles
//! alternate).

use vstd::prelude::*;
use crate::context::filter::{
    spec_drop_leading_assistants, spec_drop_trailing_tool_calls, spec_filter, spec_is_tool_call_message,
    spec_is_tool_result_message, spec_keep_from, spec_limit_chars, spec_limit_count,
    spec_skip_orphan_results, spec_text_size, spec_tool_pairs, ContextFilter,
};
use crate::context::convert::{opt_seq, spec_convert_block, spec_convert_blocks, spec_flush, spec_split, spec_split_state};
use crate::models::content::{spec_has_tool_results, spec_has_tool_uses, spec_is_tool_result, BlockView, ContentView};
use crate::tensorzero::request::{InputBlockView, InputMessageView, MessageRole};
use crate::models::message::{MessageView, Role};

verus! {

/// Whether `a` is `b` with some of its elements left out, the rest in their order.
pub open spec fn spec_is_subsequence<A>(a: Seq<A>, b: Seq<A>) -> bool
    decreases b.len(),
{
    if b.len() == 0 {
        a.len() == 0
    } else {
        spec_is_subsequence(a, b.drop_last())
            || (a.len() > 0 && a.last() == b.last() && spec_is_subsequence(a.drop_last(), b.drop_last()))
    }
}

/// The total size of the messages' text in characters.
pub open spec fn spec_total_size(s: Seq<MessageView>) -> nat
    decreases s.len(),
{
    if s.len() == 0 {
        0
    } else {
        spec_total_size(s.drop_last()) + spec_text_size(s.last())
    }
}

/// Whether every tool-result message follows a message with tool uses.
pub open spec fn spec_results_follow_calls(s: Seq<MessageView>) -> bool {
    forall|k: int|
        0 <= k < s.len() && spec_is_tool_result_message(#[trigger] s[k]) ==> k > 0 && spec_has_tool_uses(
            s[k - 1].content,
        )
}

proof fn lemma_subsequence_empty<A>(b: Seq<A>)
    ensures
        spec_is_subsequence(Seq::<A>::empty(), b),
    decreases b.len(),
{
    if b.len() > 0 {
        lemma_subsequence_empty(b.drop_last());
    }
}

proof fn lemma_subsequence_refl<A>(s: Seq<A>)
    ensures
        spec_is_subsequence(s, s),
    decreases s.len(),
{
    if s.len() > 0 {
        lemma_subsequence_refl(s.drop_last());
    }
}

proof fn lemma_subsequence_trans<A>(a: Seq<A>, b: Seq<A>, c: Seq<A>)
    requires
        spec_is_subsequence(a, b),
        spec_is_subsequence(b, c),
    ensures
        spec_is_subsequence(a, c),
    decreases c.len(),
{
    if c.len() == 0 {
    } else if spec_is_subsequence(b, c.drop_last()) {
        lemma_subsequence_trans(a, b, c.drop_last());
    } else {
        // b ends with c's last element and the rest of b is in the rest of c.
        if b.len() == 0 {
            lemma_subsequence_empty(c);
        } else if spec_is_subsequence(a, b.drop_last()) {
            lemma_subsequence_trans(a, b.drop_last(), c.drop_last());
        } else {
            lemma_subsequence_trans(a.drop_last(), b.drop_last(), c.drop_last());
        }
    }
}

proof fn lemma_subsequence_skip<A>(s: Seq<A>, k: int)
    requires
        0 <= k <= s.len(),
    ensures
        spec_is_subsequence(s.skip(k), s),
    decreases s.len(),
{
    if k == s.len() {
        assert(s.skip(k) =~= Seq::<A>::empty());
        lemma_subsequence_empty(s);
    } else {
        lemma_subsequence_skip(s.drop_last(), k);
        assert(s.skip(k).drop_last() =~= s.drop_last().skip(k));
        assert(s.skip(k).last() == s.last());
    }
}

proof fn lemma_subsequence_drop_last<A>(s: Seq<A>)
    requires
        s.len() > 0,
    ensures
        spec_is_subsequence(s.drop_last(), s),
{
    lemma_subsequence_refl(s.drop_last());
}

proof fn lemma_subsequence_len<A>(a: Seq<A>, b: Seq<A>)
    requires
        spec_is_subsequence(a, b),
    ensures
        a.len() <= b.len(),
    decreases b.len(),
{
    if b.len() > 0 {
        if spec_is_subsequence(a, b.drop_last()) {
            lemma_subsequence_len(a, b.drop_last());
        } else {
            lemma_subsequence_len(a.drop_last(), b.drop_last());
        }
    }
}

proof fn lemma_total_first(s: Seq<MessageView>)
    requires
        s.len() > 0,
    ensures
        spec_total_size(s) == spec_text_size(s[0]) + spec_total_size(s.drop_first()),
    decreases s.len(),
{
    if s.len() > 1 {
        lemma_total_first(s.drop_last());
        assert(s.drop_last().drop_first() =~= s.drop_first().drop_last());
        assert(s.drop_first().last() == s.last());
        assert(s.drop_last()[0] == s[0]);
        assert(spec_total_size(s.drop_first()) == spec_total_size(s.drop_first().drop_last()) + spec_text_size(
            s.last(),
        ));
    } else {
        assert(s.drop_first().len() == 0);
        assert(s.drop_last().len() == 0);
        assert(s.last() == s[0]);
        assert(spec_total_size(s.drop_first()) == 0);
        assert(spec_total_size(s.drop_last()) == 0);
    }
}

proof fn lemma_subsequence_total(a: Seq<MessageView>, b: Seq<MessageView>)
    requires
        spec_is_subsequence(a, b),
    ensures
        spec_total_size(a) <= spec_total_size(b),
    decreases b.len(),
{
    if b.len() > 0 {
        if spec_is_subsequence(a, b.drop_last()) {
            lemma_subsequence_total(a, b.drop_last());
        } else {
            lemma_subsequence_total(a.drop_last(), b.drop_last());
        }
    }
}

proof fn lemma_drop_leading_assistants(s: Seq<MessageView>)
    ensures
        spec_is_subsequence(spec_drop_leading_assistants(s), s),
    decreases s.len(),
{
    if s.len() > 0 && s[0].role == Role::Assistant {
        lemma_drop_leading_assistants(s.drop_first());
        assert(s.drop_first() =~= s.skip(1));
        lemma_subsequence_skip(s, 1);
        lemma_subsequence_trans(spec_drop_leading_assistants(s.drop_first()), s.drop_first(), s);
    } else {
        lemma_subsequence_refl(s);
    }
}

proof fn lemma_drop_trailing_tool_calls(s: Seq<MessageView>)
    ensures
        spec_is_subsequence(spec_drop_trailing_tool_calls(s), s),
        spec_drop_trailing_tool_calls(s).len() > 0 ==> !spec_is_tool_call_message(
            spec_drop_trailing_tool_calls(s).last(),
        ),
        spec_results_follow_calls(s) ==> spec_results_follow_calls(spec_drop_trailing_tool_calls(s)),
    decreases s.len(),
{
    if s.len() > 0 && spec_is_tool_call_message(s.last()) {
        let t = s.drop_last();
        lemma_drop_trailing_tool_calls(t);
        lemma_subsequence_drop_last(s);
        lemma_subsequence_trans(spec_drop_trailing_tool_calls(t), t, s);
        if spec_results_follow_calls(s) {
            assert forall|k: int| 0 <= k < t.len() && spec_is_tool_result_message(#[trigger] t[k]) implies k > 0
                && spec_has_tool_uses(t[k - 1].content) by {
                assert(t[k] == s[k]);
                assert(s[k] == t[k]);
            }
        }
    } else {
        lemma_subsequence_refl(s);
    }
}

proof fn lemma_skip_orphan_results(s: Seq<MessageView>)
    ensures
        spec_is_subsequence(spec_skip_orphan_results(s), s),
        spec_results_follow_calls(spec_skip_orphan_results(s)),
    decreases s.len(),
{
    if s.len() > 0 {
        let t = s.drop_last();
        let r = spec_skip_orphan_results(t);
        let m = s.last();
        lemma_skip_orphan_results(t);
        if spec_is_tool_result_message(m) && (r.len() == 0 || !spec_has_tool_uses(r.last().content)) {
        } else {
            assert(r.push(m).drop_last() =~= r);
            let p = r.push(m);
            assert forall|k: int| 0 <= k < p.len() && spec_is_tool_result_message(#[trigger] p[k]) implies k > 0
                && spec_has_tool_uses(p[k - 1].content) by {
                if k < r.len() {
                    assert(p[k] == r[k]);
                    assert(p[k - 1] == r[k - 1]);
                } else {
                    assert(p[k - 1] == r.last());
                }
            }
        }
    }
}

proof fn lemma_keep_from(s: Seq<MessageView>, i: int, total: int, max: int)
    requires
        0 <= i <= s.len(),
        total == spec_total_size(s.skip(i)),
        total <= max,
    ensures
        0 <= spec_keep_from(s, i, total, max) <= s.len(),
        spec_total_size(s.skip(spec_keep_from(s, i, total, max))) <= max,
    decreases i,
{
    if i <= 0 {
        assert(s.skip(0) =~= s);
    } else {
        lemma_total_first(s.skip(i - 1));
        assert(s.skip(i - 1).drop_first() =~= s.skip(i));
        assert(s.skip(i - 1)[0] == s[i - 1]);
        if total + spec_text_size(s[i - 1]) <= max {
            lemma_keep_from(s, i - 1, total + spec_text_size(s[i - 1]), max);
        }
    }
}

proof fn lemma_limit_count(s: Seq<MessageView>, max: Option<usize>)
    ensures
        spec_is_subsequence(spec_limit_count(s, max), s),
        max matches Some(m) ==> spec_limit_count(s, max).len() <= m,
{
    match max {
        Some(m) => if s.len() > m {
            let t = s.skip(s.len() - m);
            lemma_drop_leading_assistants(t);
            lemma_subsequence_skip(s, s.len() - m);
            lemma_subsequence_trans(spec_drop_leading_assistants(t), t, s);
            lemma_subsequence_len(spec_drop_leading_assistants(t), t);
        } else {
            lemma_subsequence_refl(s);
        },
        None => lemma_subsequence_refl(s),
    }
}

proof fn lemma_limit_chars(s: Seq<MessageView>, max: Option<usize>)
    ensures
        spec_is_subsequence(spec_limit_chars(s, max), s),
        max matches Some(c) ==> spec_total_size(spec_limit_chars(s, max)) <= c,
{
    match max {
        Some(c) => {
            assert(s.skip(s.len() as int) =~= Seq::<MessageView>::empty());
            lemma_keep_from(s, s.len() as int, 0, c as int);
            let k = spec_keep_from(s, s.len() as int, 0, c as int);
            if k > 0 {
                let t = s.skip(k);
                let b = spec_drop_leading_assistants(t);
                lemma_drop_leading_assistants(t);
                lemma_subsequence_skip(s, k);
                lemma_subsequence_trans(b, t, s);
                lemma_subsequence_total(b, t);
                assert(spec_limit_chars(s, max) == b);
            } else {
                lemma_subsequence_refl(s);
                assert(s.skip(0) =~= s);
                assert(spec_limit_chars(s, max) == s);
            }
        },
        None => lemma_subsequence_refl(s),
    }
}

proof fn lemma_tool_pairs(s: Seq<MessageView>)
    ensures
        spec_is_subsequence(spec_tool_pairs(s), s),
        spec_tool_pairs(s).len() > 0 ==> !spec_is_tool_call_message(spec_tool_pairs(s).last()),
        spec_results_follow_calls(spec_tool_pairs(s)),
{
    let r = spec_skip_orphan_results(s);
    lemma_skip_orphan_results(s);
    lemma_drop_trailing_tool_calls(r);
    lemma_subsequence_trans(spec_drop_trailing_tool_calls(r), r, s);
}

/// Whether a message is a user message that carries no tool result.
pub open spec fn spec_is_plain_user_message(m: MessageView) -> bool {
    m.role == Role::User && !spec_has_tool_results(m.content)
}

proof fn lemma_skip_orphan_keeps_plain_users(s: Seq<MessageView>)
    ensures
        forall|i: int| 0 <= i < s.len() && spec_is_plain_user_message(#[trigger] s[i])
            ==> spec_skip_orphan_results(s).contains(s[i]),
    decreases s.len(),
{
    if s.len() > 0 {
        let t = s.drop_last();
        let r = spec_skip_orphan_results(t);
        let m = s.last();
        lemma_skip_orphan_keeps_plain_users(t);
        assert forall|i: int| 0 <= i < s.len() && spec_is_plain_user_message(#[trigger] s[i])
            implies spec_skip_orphan_results(s).contains(s[i]) by {
            if i < t.len() {
                assert(t[i] == s[i]);
                let j = choose|j: int| 0 <= j < r.len() && r[j] == t[i];
                if !(spec_is_tool_result_message(m) && (r.len() == 0 || !spec_has_tool_uses(r.last().content))) {
                    assert(r.push(m)[j] == r[j]);
                }
            } else {
                assert(s[i] == m);
                assert(!spec_is_tool_result_message(m));
                assert(r.push(m)[r.len() as int] == m);
            }
        }
    }
}

proof fn lemma_drop_trailing_keeps_users(s: Seq<MessageView>)
    ensures
        forall|x: MessageView| s.contains(x) && x.role == Role::User ==> spec_drop_trailing_tool_calls(s).contains(x),
    decreases s.len(),
{
    if s.len() > 0 && spec_is_tool_call_message(s.last()) {
        let t = s.drop_last();
        lemma_drop_trailing_keeps_users(t);
        assert forall|x: MessageView| s.contains(x) && x.role == Role::User implies t.contains(x) by {
            let j = choose|j: int| 0 <= j < s.len() && s[j] == x;
            assert(j != s.len() - 1);
            assert(t[j] == x);
        }
    }
}

/// The user messages of `s` that carry no tool result, in order.
pub open spec fn spec_plain_user_messages(s: Seq<MessageView>) -> Seq<MessageView>
    decreases s.len(),
{
    if s.len() == 0 {
        Seq::empty()
    } else if spec_is_plain_user_message(s.last()) {
        spec_plain_user_messages(s.drop_last()).push(s.last())
    } else {
        spec_plain_user_messages(s.drop_last())
    }
}

proof fn lemma_skip_orphan_plain_users(s: Seq<MessageView>)
    ensures
        spec_plain_user_messages(spec_skip_orphan_results(s)) == spec_plain_user_messages(s),
    decreases s.len(),
{
    if s.len() > 0 {
        let t = s.drop_last();
        let r = spec_skip_orphan_results(t);
        let m = s.last();
        lemma_skip_orphan_plain_users(t);
        if !(spec_is_tool_result_message(m) && (r.len() == 0 || !spec_has_tool_uses(r.last().content))) {
            assert(r.push(m).drop_last() =~= r);
        }
    }
}

proof fn lemma_drop_trailing_plain_users(s: Seq<MessageView>)
    ensures
        spec_plain_user_messages(spec_drop_trailing_tool_calls(s)) == spec_plain_user_messages(s),
    decreases s.len(),
{
    if s.len() > 0 && spec_is_tool_call_message(s.last()) {
        lemma_drop_trailing_plain_users(s.drop_last());
    }
}

/// Keeping tool calls and results together only leaves messages out, in order; it
/// keeps every user message that carries no tool result (the same ones, in the same
/// order); every tool-result message it keeps follows a message with tool uses; and
/// what it keeps does not end with an assistant message whose tool calls have no
/// results.
pub proof fn tool_pairs_guarantees(s: Seq<MessageView>)
    ensures
        spec_is_subsequence(spec_tool_pairs(s), s),
        spec_plain_user_messages(spec_tool_pairs(s)) == spec_plain_user_messages(s),
        forall|i: int| 0 <= i < s.len() && spec_is_plain_user_message(#[trigger] s[i])
            ==> spec_tool_pairs(s).contains(s[i]),
        spec_results_follow_calls(spec_tool_pairs(s)),
        spec_tool_pairs(s).len() > 0 ==> !spec_is_tool_call_message(spec_tool_pairs(s).last()),
{
    lemma_tool_pairs(s);
    lemma_skip_orphan_plain_users(s);
    lemma_drop_trailing_plain_users(spec_skip_orphan_results(s));
    lemma_skip_orphan_keeps_plain_users(s);
    lemma_drop_trailing_keeps_users(spec_skip_orphan_results(s));
}

/// Whether the tool-pair step has nothing to decide about a message: it neither
/// carries tool results from the user nor calls tools from the assistant.
pub open spec fn spec_is_other_message(m: MessageView) -> bool {
    !spec_is_tool_result_message(m) && !spec_is_tool_call_message(m)
}

/// The messages of `s` that are neither tool-result nor tool-call messages, in order.
pub open spec fn spec_other_messages(s: Seq<MessageView>) -> Seq<MessageView>
    decreases s.len(),
{
    if s.len() == 0 {
        Seq::empty()
    } else if spec_is_other_message(s.last()) {
        spec_other_messages(s.drop_last()).push(s.last())
    } else {
        spec_other_messages(s.drop_last())
    }
}

proof fn lemma_skip_orphan_other_messages(s: Seq<MessageView>)
    ensures
        spec_other_messages(spec_skip_orphan_results(s)) == spec_other_messages(s),
    decreases s.len(),
{
    if s.len() > 0 {
        let t = s.drop_last();
        let r = spec_skip_orphan_results(t);
        let m = s.last();
        lemma_skip_orphan_other_messages(t);
        if !(spec_is_tool_result_message(m) && (r.len() == 0 || !spec_has_tool_uses(r.last().content))) {
            assert(r.push(m).drop_last() =~= r);
        }
    }
}

proof fn lemma_drop_trailing_other_messages(s: Seq<MessageView>)
    ensures
        spec_other_messages(spec_drop_trailing_tool_calls(s)) == spec_other_messages(s),
    decreases s.len(),
{
    if s.len() > 0 && spec_is_tool_call_message(s.last()) {
        lemma_drop_trailing_other_messages(s.drop_last());
    }
}

/// Keeping tool calls and results together removes only tool-result and tool-call
/// messages: every other message (plain user messages, plain assistant replies) is
/// kept, the same ones in the same order.
pub proof fn tool_pairs_keep_other_messages(s: Seq<MessageView>)
    ensures
        spec_other_messages(spec_tool_pairs(s)) == spec_other_messages(s),
{
    lemma_skip_orphan_other_messages(s);
    lemma_drop_trailing_other_messages(spec_skip_orphan_results(s));
}

proof fn lemma_other_messages_all(s: Seq<MessageView>)
    requires
        forall|i: int| 0 <= i < s.len() ==> spec_is_other_message(#[trigger] s[i]),
    ensures
        spec_other_messages(s) == s,
    decreases s.len(),
{
    if s.len() > 0 {
        let t = s.drop_last();
        assert forall|i: int| 0 <= i < t.len() implies spec_is_other_message(#[trigger] t[i]) by {
            assert(t[i] == s[i]);
        }
        lemma_other_messages_all(t);
        assert(s[s.len() - 1] == s.last());
        assert(t.push(s.last()) =~= s);
    }
}

proof fn lemma_other_messages_len(s: Seq<MessageView>)
    ensures
        spec_other_messages(s).len() <= s.len(),
    decreases s.len(),
{
    if s.len() > 0 {
        lemma_other_messages_len(s.drop_last());
    }
}

/// With no message or character limit, a history with no tool-result or tool-call
/// message is kept whole.
pub proof fn filter_without_limits_keeps_plain_history(f: ContextFilter, s: Seq<MessageView>)
    requires
        f.max_messages is None,
        f.max_characters is None,
        forall|i: int| 0 <= i < s.len() ==> spec_is_other_message(#[trigger] s[i]),
    ensures
        spec_filter(f, s) == s,
{
    if f.preserve_tool_pairs {
        let r = spec_tool_pairs(s);
        lemma_tool_pairs(s);
        tool_pairs_keep_other_messages(s);
        lemma_other_messages_all(s);
        lemma_subsequence_len(r, s);
        lemma_other_messages_len(r);
        lemma_other_messages_sub(r);
    }
}

/// The other messages of `s` are all of `s` only when `s` has no other message.
proof fn lemma_other_messages_sub(s: Seq<MessageView>)
    ensures
        spec_other_messages(s).len() == s.len() ==> spec_other_messages(s) == s,
    decreases s.len(),
{
    if s.len() > 0 {
        let t = s.drop_last();
        lemma_other_messages_sub(t);
        lemma_other_messages_len(t);
        if spec_is_other_message(s.last()) {
            if spec_other_messages(s).len() == s.len() {
                assert(t.push(s.last()) =~= s);
            }
        }
    }
}

/// A stored text block converts to the same text, a tool use to a gateway tool call
/// with the same call ID, tool name and arguments, and a tool result to a gateway tool
/// result with the same call ID, tool name and content.
pub proof fn conversion_keeps_fields(id: Seq<char>, name: Seq<char>, body: Seq<char>, is_error: bool)
    ensures
        spec_convert_block(BlockView::Text { text: body }) == Some(InputBlockView::Text { text: body }),
        spec_convert_block(BlockView::ToolUse { id, name, input: body })
            == Some(InputBlockView::ToolCall { id, name, arguments: body }),
        spec_convert_block(BlockView::ToolResult { tool_use_id: id, name, content: body, is_error })
            == Some(InputBlockView::ToolResult { id, name, result: body }),
{
}

/// Filtering only leaves messages out: what it keeps is a subsequence of the history,
/// in the history's order.
pub proof fn filter_keeps_order(f: ContextFilter, s: Seq<MessageView>)
    ensures
        spec_is_subsequence(spec_filter(f, s), s),
{
    let a = spec_limit_count(s, f.max_messages);
    let b = spec_limit_chars(a, f.max_characters);
    lemma_limit_count(s, f.max_messages);
    lemma_limit_chars(a, f.max_characters);
    lemma_subsequence_trans(b, a, s);
    if f.preserve_tool_pairs {
        lemma_tool_pairs(b);
        lemma_subsequence_trans(spec_tool_pairs(b), b, s);
    }
}

/// With a message limit, filtering keeps at most that many messages.
pub proof fn filter_respects_message_limit(f: ContextFilter, s: Seq<MessageView>)
    requires
        f.max_messages is Some,
    ensures
        spec_filter(f, s).len() <= f.max_messages->0,
{
    let a = spec_limit_count(s, f.max_messages);
    let b = spec_limit_chars(a, f.max_characters);
    lemma_limit_count(s, f.max_messages);
    lemma_limit_chars(a, f.max_characters);
    lemma_subsequence_len(b, a);
    if f.preserve_tool_pairs {
        lemma_tool_pairs(b);
        lemma_subsequence_len(spec_tool_pairs(b), b);
    }
}

/// With a character limit, the text of the kept messages fits in the limit.
pub proof fn filter_respects_character_limit(f: ContextFilter, s: Seq<MessageView>)
    requires
        f.max_characters is Some,
    ensures
        spec_total_size(spec_filter(f, s)) <= f.max_characters->0,
{
    let a = spec_limit_count(s, f.max_messages);
    let b = spec_limit_chars(a, f.max_characters);
    lemma_limit_chars(a, f.max_characters);
    if f.preserve_tool_pairs {
        lemma_tool_pairs(b);
        lemma_subsequence_total(spec_tool_pairs(b), b);
    }
}

/// With tool pairs preserved, every kept tool-result message follows a message with
/// tool uses, and the kept history does not end with an assistant message whose tool
/// calls have no results.
pub proof fn filter_keeps_tool_pairs(f: ContextFilter, s: Seq<MessageView>)
    requires
        f.preserve_tool_pairs,
    ensures
        spec_results_follow_calls(spec_filter(f, s)),
        spec_filter(f, s).len() > 0 ==> !spec_is_tool_call_message(spec_filter(f, s).last()),
{
    let a = spec_limit_count(s, f.max_messages);
    let b = spec_limit_chars(a, f.max_characters);
    lemma_tool_pairs(b);
}

/// The blocks of messages, in order.
pub open spec fn spec_contents(ms: Seq<InputMessageView>) -> Seq<InputBlockView>
    decreases ms.len(),
{
    if ms.len() == 0 {
        Seq::empty()
    } else {
        spec_contents(ms.drop_last()) + ms.last().content
    }
}

/// Whether the message at `i` has the other role than the one before it.
pub open spec fn spec_role_changes_at(ms: Seq<InputMessageView>, i: int) -> bool {
    ms[i].role != ms[i - 1].role
}

/// Whether each message has the other role than the one before it.
pub open spec fn spec_roles_alternate(ms: Seq<InputMessageView>) -> bool {
    forall|i: int| 0 < i < ms.len() ==> #[trigger] spec_role_changes_at(ms, i)
}

/// Whether every message has at least one block, and a user message only tool results
/// while an assistant message has none.
pub open spec fn spec_blocks_match_roles(ms: Seq<InputMessageView>) -> bool {
    forall|i: int| 0 <= i < ms.len() ==> spec_role_blocks((#[trigger] ms[i]).role, ms[i].content)
}

/// Whether blocks are not empty and are all tool results for a user message, none
/// for an assistant message.
pub open spec fn spec_role_blocks(role: MessageRole, blocks: Seq<InputBlockView>) -> bool {
    &&& blocks.len() > 0
    &&& forall|j: int| 0 <= j < blocks.len() ==> ((#[trigger] blocks[j]) is ToolResult <==> role == MessageRole::User)
}

proof fn lemma_contents_flush(ms: Seq<InputMessageView>, role: MessageRole, buf: Seq<InputBlockView>)
    ensures
        spec_contents(ms + spec_flush(role, buf)) == spec_contents(ms) + buf,
{
    if buf.len() > 0 {
        let m = InputMessageView { role, content: buf };
        assert(ms + spec_flush(role, buf) =~= ms.push(m));
        assert(ms.push(m).drop_last() =~= ms);
    } else {
        assert(ms + spec_flush(role, buf) =~= ms);
        assert(spec_contents(ms) + buf =~= spec_contents(ms));
    }
}

proof fn lemma_split_state_contents(bs: Seq<BlockView>)
    ensures
        ({
            let st = spec_split_state(bs);
            &&& st.1.len() == 0 || st.2.len() == 0
            &&& spec_contents(st.0) + st.1 + st.2 == spec_convert_blocks(bs)
        }),
    decreases bs.len(),
{
    if bs.len() == 0 {
        assert(spec_contents(Seq::<InputMessageView>::empty()) + Seq::<InputBlockView>::empty()
            + Seq::<InputBlockView>::empty() =~= Seq::<InputBlockView>::empty());
    } else {
        let prev = spec_split_state(bs.drop_last());
        let b = bs.last();
        let conv = opt_seq(spec_convert_block(b));
        lemma_split_state_contents(bs.drop_last());
        if spec_convert_block(b) is None {
            assert(conv =~= Seq::<InputBlockView>::empty());
            assert(spec_contents(prev.0) + prev.1 + prev.2 + conv =~= spec_contents(prev.0) + prev.1 + prev.2);
        } else if spec_is_tool_result(b) {
            lemma_contents_flush(prev.0, MessageRole::Assistant, prev.1);
            assert(spec_contents(prev.0) + prev.1 + Seq::<InputBlockView>::empty() + (prev.2 + conv)
                =~= spec_contents(prev.0) + prev.1 + prev.2 + conv);
        } else {
            lemma_contents_flush(prev.0, MessageRole::User, prev.2);
            if prev.1.len() == 0 {
                assert(spec_contents(prev.0) + prev.2 + (prev.1 + conv) + Seq::<InputBlockView>::empty()
                    =~= spec_contents(prev.0) + prev.1 + prev.2 + conv);
            } else {
                assert(spec_contents(prev.0) + prev.2 + (prev.1 + conv) + Seq::<InputBlockView>::empty()
                    =~= spec_contents(prev.0) + prev.1 + prev.2 + conv);
            }
        }
    }
}

/// Splitting a unified message loses no block and keeps their order: the blocks of the
/// messages it splits into, read in turn, are the converted blocks of the message.
pub proof fn split_keeps_blocks(bs: Seq<BlockView>)
    ensures
        spec_contents(spec_split(ContentView::Blocks(bs))) == spec_convert_blocks(bs),
{
    let st = spec_split_state(bs);
    lemma_split_state_contents(bs);
    lemma_contents_flush(st.0, MessageRole::Assistant, st.1);
    lemma_contents_flush(st.0 + spec_flush(MessageRole::Assistant, st.1), MessageRole::User, st.2);
}

/// The role of the message that the last block converting to something goes to, or
/// `None` when no block converts to anything.
pub open spec fn spec_last_role(bs: Seq<BlockView>) -> Option<MessageRole>
    decreases bs.len(),
{
    if bs.len() == 0 {
        None
    } else if spec_convert_block(bs.last()) is Some {
        Some(spec_role_of(spec_is_tool_result(bs.last())))
    } else {
        spec_last_role(bs.drop_last())
    }
}

/// The state of a split after one more block whose converted form is `conv`: a tool
/// result (`result`) flushes the assistant buffer and joins the user buffer, any other
/// block flushes the user buffer and joins the assistant buffer.
pub open spec fn spec_split_step(
    prev: (Seq<InputMessageView>, Seq<InputBlockView>, Seq<InputBlockView>),
    conv: Seq<InputBlockView>,
    result: bool,
) -> (Seq<InputMessageView>, Seq<InputBlockView>, Seq<InputBlockView>) {
    if result {
        (prev.0 + spec_flush(MessageRole::Assistant, prev.1), Seq::empty(), prev.2 + conv)
    } else {
        (prev.0 + spec_flush(MessageRole::User, prev.2), prev.1 + conv, Seq::empty())
    }
}

/// Whether a split state is sound with the last block in a buffer of `role`: only that
/// buffer holds blocks, which fit the role, and the messages so far alternate, fit
/// their roles and end with the other role.
pub open spec fn spec_split_state_ok(
    st: (Seq<InputMessageView>, Seq<InputBlockView>, Seq<InputBlockView>),
    role: MessageRole,
) -> bool {
    &&& role == MessageRole::User ==> st.1.len() == 0 && spec_role_blocks(MessageRole::User, st.2)
    &&& role == MessageRole::Assistant ==> st.2.len() == 0 && spec_role_blocks(MessageRole::Assistant, st.1)
    &&& spec_roles_alternate(st.0)
    &&& spec_blocks_match_roles(st.0)
    &&& st.0.len() > 0 ==> st.0.last().role != role
}

/// The role whose buffer a block goes to.
pub open spec fn spec_role_of(result: bool) -> MessageRole {
    if result {
        MessageRole::User
    } else {
        MessageRole::Assistant
    }
}

proof fn lemma_push_message(ms: Seq<InputMessageView>, m: InputMessageView)
    requires
        spec_roles_alternate(ms),
        spec_blocks_match_roles(ms),
        ms.len() > 0 ==> ms.last().role != m.role,
        spec_role_blocks(m.role, m.content),
    ensures
        spec_roles_alternate(ms.push(m)),
        spec_blocks_match_roles(ms.push(m)),
        ms.push(m).last().role == m.role,
{
    let r = ms.push(m);
    assert forall|i: int| 0 < i < r.len() implies #[trigger] spec_role_changes_at(r, i) by {
        if i < ms.len() {
            assert(spec_role_changes_at(ms, i));
            assert(r[i] == ms[i]);
            assert(r[i - 1] == ms[i - 1]);
        } else {
            assert(r[i - 1] == ms.last());
        }
    }
    assert forall|i: int| 0 <= i < r.len() implies spec_role_blocks((#[trigger] r[i]).role, r[i].content) by {
        if i < ms.len() {
            assert(r[i] == ms[i]);
        }
    }
}

proof fn lemma_append_block(role: MessageRole, buf: Seq<InputBlockView>, conv: Seq<InputBlockView>)
    requires
        buf.len() == 0 || spec_role_blocks(role, buf),
        conv.len() == 1,
        conv[0] is ToolResult <==> role == MessageRole::User,
    ensures
        spec_role_blocks(role, buf + conv),
{
    let n = buf + conv;
    assert forall|j: int| 0 <= j < n.len() implies ((#[trigger] n[j]) is ToolResult <==> role == MessageRole::User) by {
        if j < buf.len() {
            assert(n[j] == buf[j]);
        } else {
            assert(n[j] == conv[0]);
        }
    }
}

proof fn lemma_split_step_ok(
    prev: (Seq<InputMessageView>, Seq<InputBlockView>, Seq<InputBlockView>),
    prole: MessageRole,
    conv: Seq<InputBlockView>,
    result: bool,
)
    requires
        spec_split_state_ok(prev, prole),
        conv.len() == 1,
        conv[0] is ToolResult <==> result,
    ensures
        spec_split_state_ok(spec_split_step(prev, conv, result), spec_role_of(result)),
{
    let role = spec_role_of(result);
    if result {
        let m = InputMessageView { role: MessageRole::Assistant, content: prev.1 };
        if prev.1.len() > 0 {
            assert(prev.0 + spec_flush(MessageRole::Assistant, prev.1) =~= prev.0.push(m));
            lemma_push_message(prev.0, m);
            lemma_append_block(role, Seq::empty(), conv);
            assert(prev.2.len() == 0);
            assert(prev.2 + conv =~= Seq::<InputBlockView>::empty() + conv);
        } else {
            assert(prev.0 + spec_flush(MessageRole::Assistant, prev.1) =~= prev.0);
            lemma_append_block(role, prev.2, conv);
        }
    } else {
        let m = InputMessageView { role: MessageRole::User, content: prev.2 };
        if prev.2.len() > 0 {
            assert(prev.0 + spec_flush(MessageRole::User, prev.2) =~= prev.0.push(m));
            lemma_push_message(prev.0, m);
            lemma_append_block(role, Seq::empty(), conv);
            assert(prev.1.len() == 0);
            assert(prev.1 + conv =~= Seq::<InputBlockView>::empty() + conv);
        } else {
            assert(prev.0 + spec_flush(MessageRole::User, prev.2) =~= prev.0);
            lemma_append_block(role, prev.1, conv);
        }
    }
}

proof fn lemma_convert_kind(b: BlockView)
    requires
        spec_convert_block(b) is Some,
    ensures
        opt_seq(spec_convert_block(b)).len() == 1,
        opt_seq(spec_convert_block(b))[0] is ToolResult <==> spec_is_tool_result(b),
{
}

proof fn lemma_split_state_roles(bs: Seq<BlockView>)
    ensures
        ({
            let st = spec_split_state(bs);
            match spec_last_role(bs) {
                None => st.0.len() == 0 && st.1.len() == 0 && st.2.len() == 0,
                Some(role) => spec_split_state_ok(st, role),
            }
        }),
    decreases bs.len(),
{
    if bs.len() > 0 {
        let b = bs.last();
        let conv = opt_seq(spec_convert_block(b));
        let t = bs.drop_last();
        let prev = spec_split_state(t);
        lemma_split_state_roles(t);
        if spec_convert_block(b) is Some {
            lemma_convert_kind(b);
            let role = spec_role_of(spec_is_tool_result(b));
            let next = spec_split_step(prev, conv, spec_is_tool_result(b));
            assert(spec_split_state(bs) == next);
            match spec_last_role(t) {
                None => {
                    lemma_append_block(role, Seq::empty(), conv);
                    assert(Seq::<InputBlockView>::empty() + conv =~= conv);
                    assert(next.0 =~= Seq::<InputMessageView>::empty());
                    if spec_is_tool_result(b) {
                        assert(next.2 =~= conv);
                    } else {
                        assert(next.1 =~= conv);
                    }
                },
                Some(prole) => {
                    lemma_split_step_ok(prev, prole, conv, spec_is_tool_result(b));
                },
            }
        }
    }
}

/// Splitting a unified message gives a message exactly when some block converts to
/// something; the roles of the messages alternate, and each message holds blocks:
/// only tool results in a user message, no tool result in an assistant message. A
/// block that converts to nothing (an image) ends no message.
pub proof fn split_alternates_roles(bs: Seq<BlockView>)
    ensures
        spec_split(ContentView::Blocks(bs)).len() > 0 <==> spec_last_role(bs) is Some,
        spec_roles_alternate(spec_split(ContentView::Blocks(bs))),
        spec_blocks_match_roles(spec_split(ContentView::Blocks(bs))),
{
    let st = spec_split_state(bs);
    lemma_split_state_roles(bs);
    let a = st.0 + spec_flush(MessageRole::Assistant, st.1);
    let r = a + spec_flush(MessageRole::User, st.2);
    assert(spec_split(ContentView::Blocks(bs)) == r);
    match spec_last_role(bs) {
        None => {
            assert(r =~= Seq::<InputMessageView>::empty());
        },
        Some(role) => {
            if role == MessageRole::User {
                let m = InputMessageView { role, content: st.2 };
                assert(a =~= st.0);
                assert(r =~= st.0.push(m));
                lemma_push_message(st.0, m);
            } else {
                let m = InputMessageView { role, content: st.1 };
                assert(a =~= st.0.push(m));
                assert(r =~= st.0.push(m));
                lemma_push_message(st.0, m);
            }
        },
    }
}

} // verus!
