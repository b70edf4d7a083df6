//! Filtering of message history to fit a context window.

use vstd::prelude::*;
use vstd::string::StringSliceAdditionalSpecFns;
use crate::models::content::{spec_content_text, spec_has_tool_results, spec_has_tool_uses};
use crate::models::message::{messages_view, Message, MessageView, Role};

verus! {

/// Filter configuration for context messages.
#[derive(Debug, Clone, Copy)]
pub struct ContextFilter {
    /// Maximum number of messages to include.
    pub max_messages: Option<usize>,
    /// Maximum total characters of message text in context.
    pub max_characters: Option<usize>,
    /// Whether to always include the system message.
    pub include_system: bool,
    /// Whether to keep tool calls and tool results together.
    pub preserve_tool_pairs: bool,
}

/// The size of a message's text in characters.
pub open spec fn spec_text_size(m: MessageView) -> nat {
    spec_content_text(m.content).len()
}

/// `s` without its leading assistant messages.
pub open spec fn spec_drop_leading_assistants(s: Seq<MessageView>) -> Seq<MessageView>
    decreases s.len(),
{
    if s.len() > 0 && s[0].role == Role::Assistant {
        spec_drop_leading_assistants(s.drop_first())
    } else {
        s
    }
}

/// The message-count step: over the limit, keep the most recent `max` messages and
/// then drop leading assistant messages.
pub open spec fn spec_limit_count(s: Seq<MessageView>, max: Option<usize>) -> Seq<MessageView> {
    match max {
        Some(m) => if s.len() > m {
            spec_drop_leading_assistants(s.skip(s.len() - m))
        } else {
            s
        },
        None => s,
    }
}

/// Scanning messages `i - 1` down to `0`, with `total` the size of the messages after
/// them: the index from which messages are kept, or `0` when no cut is made. A cut
/// is made after the first message (from the end) that would push the total over
/// `max`.
pub open spec fn spec_keep_from(s: Seq<MessageView>, i: int, total: int, max: int) -> int
    decreases i,
{
    if i <= 0 {
        0
    } else if total + spec_text_size(s[i - 1]) > max {
        i
    } else {
        spec_keep_from(s, i - 1, total + spec_text_size(s[i - 1]), max)
    }
}

/// The character step: keep the most recent messages whose sizes fit in `max`; after
/// a cut, drop leading assistant messages.
pub open spec fn spec_limit_chars(s: Seq<MessageView>, max: Option<usize>) -> Seq<MessageView> {
    match max {
        Some(m) => {
            let k = spec_keep_from(s, s.len() as int, 0, m as int);
            if k > 0 {
                spec_drop_leading_assistants(s.skip(k))
            } else {
                s
            }
        },
        None => s,
    }
}

/// Whether a message carries tool results from the user.
pub open spec fn spec_is_tool_result_message(m: MessageView) -> bool {
    m.role == Role::User && spec_has_tool_results(m.content)
}

/// Whether a message is an assistant message that calls tools.
pub open spec fn spec_is_tool_call_message(m: MessageView) -> bool {
    m.role == Role::Assistant && spec_has_tool_uses(m.content)
}

/// Keeps messages in order, skipping each tool-result message that does not follow a
/// kept message with tool uses.
pub open spec fn spec_skip_orphan_results(s: Seq<MessageView>) -> Seq<MessageView>
    decreases s.len(),
{
    if s.len() == 0 {
        s
    } else {
        let r = spec_skip_orphan_results(s.drop_last());
        let m = s.last();
        if spec_is_tool_result_message(m) && (r.len() == 0 || !spec_has_tool_uses(r.last().content)) {
            r
        } else {
            r.push(m)
        }
    }
}

/// `s` without its trailing assistant messages that call tools.
pub open spec fn spec_drop_trailing_tool_calls(s: Seq<MessageView>) -> Seq<MessageView>
    decreases s.len(),
{
    if s.len() > 0 && spec_is_tool_call_message(s.last()) {
        spec_drop_trailing_tool_calls(s.drop_last())
    } else {
        s
    }
}

/// The tool-pair step: orphan tool results are skipped and unanswered tool calls at
/// the end are dropped.
pub open spec fn spec_tool_pairs(s: Seq<MessageView>) -> Seq<MessageView> {
    spec_drop_trailing_tool_calls(spec_skip_orphan_results(s))
}

/// What [`ContextFilter::filter_messages`] keeps of a history.
pub open spec fn spec_filter(f: ContextFilter, s: Seq<MessageView>) -> Seq<MessageView> {
    let a = spec_limit_count(s, f.max_messages);
    let b = spec_limit_chars(a, f.max_characters);
    if f.preserve_tool_pairs {
        spec_tool_pairs(b)
    } else {
        b
    }
}

/// Removes the leading assistant messages.
fn drop_leading_assistants(v: &mut Vec<Message>)
    ensures
        messages_view(final(v)@) == spec_drop_leading_assistants(messages_view(old(v)@)),
{
    while v.len() > 0 && v[0].role == Role::Assistant
        invariant
            spec_drop_leading_assistants(messages_view(v@)) == spec_drop_leading_assistants(messages_view(old(v)@)),
        decreases v.len(),
    {
        let ghost before = messages_view(v@);
        v.remove(0);
        assert(messages_view(v@) =~= before.drop_first());
    }
}

/// Keeps the messages from index `k` on.
fn keep_suffix(v: Vec<Message>, k: usize) -> (r: Vec<Message>)
    requires
        k <= v@.len(),
    ensures
        messages_view(r@) == messages_view(v@).skip(k as int),
{
    let mut v = v;
    let r = v.split_off(k);
    assert(messages_view(r@) =~= messages_view(v@ + r@).skip(k as int));
    r
}

/// The size of a message's text in characters.
fn text_size(m: &Message) -> (r: usize)
    ensures
        r == spec_text_size(m@),
{
    let t = m.text();
    t.as_str().unicode_len()
}

impl ContextFilter {
    /// Create a filter with no limits that includes the system message and keeps tool
    /// calls and results together.
    pub fn new() -> (r: Self)
        ensures
            r.max_messages is None,
            r.max_characters is None,
            r.include_system,
            r.preserve_tool_pairs,
    {
        ContextFilter { max_messages: None, max_characters: None, include_system: true, preserve_tool_pairs: true }
    }

    /// Set the maximum number of messages.
    pub fn max_messages(self, max: usize) -> (r: Self)
        ensures
            r == (ContextFilter { max_messages: Some(max), ..self }),
    {
        ContextFilter { max_messages: Some(max), ..self }
    }

    /// Set the maximum total characters.
    pub fn max_characters(self, max: usize) -> (r: Self)
        ensures
            r == (ContextFilter { max_characters: Some(max), ..self }),
    {
        ContextFilter { max_characters: Some(max), ..self }
    }

    /// Set whether to include system messages.
    pub fn include_system(self, enabled: bool) -> (r: Self)
        ensures
            r == (ContextFilter { include_system: enabled, ..self }),
    {
        ContextFilter { include_system: enabled, ..self }
    }

    /// Set whether to keep tool calls and results together.
    pub fn preserve_tool_pairs(self, preserve: bool) -> (r: Self)
        ensures
            r == (ContextFilter { preserve_tool_pairs: preserve, ..self }),
    {
        ContextFilter { preserve_tool_pairs: preserve, ..self }
    }

    /// The index from which the character limit keeps messages (`0`: no cut).
    fn keep_from(messages: &Vec<Message>, max_chars: usize) -> (r: usize)
        ensures
            r == spec_keep_from(messages_view(messages@), messages@.len() as int, 0, max_chars as int),
            r <= messages@.len(),
    {
        let ghost s = messages_view(messages@);
        let mut total: usize = 0;
        let mut i: usize = messages.len();
        while i > 0
            invariant
                i <= messages@.len(),
                s == messages_view(messages@),
                total <= max_chars,
                spec_keep_from(s, s.len() as int, 0, max_chars as int) == spec_keep_from(s, i as int, total as int, max_chars as int),
            decreases i,
        {
            let c = text_size(&messages[i - 1]);
            assert(s[i - 1] == messages@[i - 1]@);
            if c > max_chars - total {
                return i;
            }
            total = total + c;
            i = i - 1;
        }
        0
    }

    /// Filter messages according to the configuration: the count limit, then the
    /// character limit, then (if set) the tool-pair rule.
    pub fn filter_messages(&self, messages: Vec<Message>) -> (r: Vec<Message>)
        ensures
            messages_view(r@) == spec_filter(*self, messages_view(messages@)),
    {
        let ghost s = messages_view(messages@);
        let mut filtered = messages;
        if let Some(max) = self.max_messages {
            if filtered.len() > max {
                let start = filtered.len() - max;
                filtered = keep_suffix(filtered, start);
                drop_leading_assistants(&mut filtered);
            }
        }
        let ghost a = messages_view(filtered@);
        assert(a == spec_limit_count(s, self.max_messages));
        if let Some(max_chars) = self.max_characters {
            let k = Self::keep_from(&filtered, max_chars);
            if k > 0 {
                filtered = keep_suffix(filtered, k);
                drop_leading_assistants(&mut filtered);
            }
        }
        assert(messages_view(filtered@) == spec_limit_chars(a, self.max_characters));
        if self.preserve_tool_pairs {
            filtered = Self::ensure_tool_pairs(filtered);
        }
        filtered
    }

    /// Skips orphan tool results and drops unanswered tool calls at the end.
    fn ensure_tool_pairs(messages: Vec<Message>) -> (r: Vec<Message>)
        ensures
            messages_view(r@) == spec_tool_pairs(messages_view(messages@)),
    {
        let ghost s = messages_view(messages@);
        let mut result: Vec<Message> = Vec::new();
        let mut i: usize = 0;
        while i < messages.len()
            invariant
                i <= messages@.len(),
                s == messages_view(messages@),
                messages_view(result@) == spec_skip_orphan_results(s.take(i as int)),
            decreases messages@.len() - i,
        {
            let msg = &messages[i];
            assert(s.take(i + 1).drop_last() =~= s.take(i as int));
            assert(s.take(i + 1).last() == msg@);
            let ghost before = messages_view(result@);
            let is_result = msg.role == Role::User && msg.content.has_tool_results();
            let skip = is_result && (result.len() == 0 || !result[result.len() - 1].has_tool_uses());
            proof {
                if result@.len() > 0 {
                    assert(before.last() == result@[result@.len() - 1]@);
                }
            }
            if !skip {
                result.push(msg.clone());
                assert(messages_view(result@) =~= before.push(msg@));
            }
            i = i + 1;
        }
        assert(s.take(i as int) =~= s);
        while result.len() > 0 && result[result.len() - 1].role == Role::Assistant
            && result[result.len() - 1].has_tool_uses()
            invariant
                spec_drop_trailing_tool_calls(messages_view(result@)) == spec_tool_pairs(s),
            decreases result@.len(),
        {
            let ghost before = messages_view(result@);
            assert(before.last() == result@[result@.len() - 1]@);
            result.pop();
            assert(messages_view(result@) =~= before.drop_last());
        }
        proof {
            let rv = messages_view(result@);
            if rv.len() > 0 {
                assert(rv.last() == result@[result@.len() - 1]@);
            }
        }
        result
    }
}

} // verus!
