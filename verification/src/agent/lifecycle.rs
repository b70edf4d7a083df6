//! Thread and message lifecycle decisions: which thread a request uses, which user
//! message it creates or edits, and the title given to a new thread.

use vstd::prelude::*;
use crate::error::AgentError;
use crate::json::push_char;
use crate::text::chars_of;
use crate::models::content::{BlockView, ContentBlock, ContentView, MessageContent};
use crate::models::message::{Message, MessageView, Role};
use crate::models::thread::{Thread, ThreadOptions};
use crate::tensorzero::request::opt_str_view;

verus! {

/// Which thread a request uses: one found in storage, or a new one to store.
#[derive(Debug)]
pub enum ThreadPlan {
    /// Use this stored thread.
    Existing(Thread),
    /// Store this new thread and use it.
    Create(Thread),
}

/// The thread a plan uses.
pub open spec fn spec_plan_thread(p: ThreadPlan) -> Thread {
    match p {
        ThreadPlan::Existing(t) => t,
        ThreadPlan::Create(t) => t,
    }
}

/// Get-or-create: a found thread is used unless a new one is forced; otherwise a new
/// thread for the caller is created, with the requested metadata.
pub fn plan_get_or_create_thread(external_id: &str, options: ThreadOptions, found: Option<Thread>) -> (r: ThreadPlan)
    ensures
        match r {
            ThreadPlan::Existing(t) => !options.force_new && found == Some(t),
            ThreadPlan::Create(t) => {
                &&& (options.force_new || found is None)
                &&& t.external_id@ == external_id@
                &&& t.metadata == options.metadata
                &&& t.agent_slug is None
                &&& t.title is None
                &&& t.episode_id is None
            },
        },
{
    if !options.force_new {
        if let Some(t) = found {
            return ThreadPlan::Existing(t);
        }
    }
    let mut thread = Thread::new(external_id);
    if let Some(m) = options.metadata {
        thread = thread.with_metadata(m);
    }
    ThreadPlan::Create(thread)
}

/// A new thread for a request, with the optional slug, title and metadata.
fn new_request_thread(
    id: Option<u128>,
    external_id: &str,
    agent_slug: Option<&str>,
    title: Option<&str>,
    metadata: Option<String>,
) -> (r: Thread)
    ensures
        id matches Some(i) ==> r.id == i,
        r.external_id@ == external_id@,
        opt_str_view(r.agent_slug) == match agent_slug { Some(s) => Some(s@), None => None },
        opt_str_view(r.title) == match title { Some(s) => Some(s@), None => None },
        r.metadata == metadata,
        r.episode_id is None,
{
    let mut thread = match id {
        Some(i) => Thread::with_id(i, external_id),
        None => Thread::new(external_id),
    };
    if let Some(slug) = agent_slug {
        thread = thread.with_agent_slug(slug);
    }
    if let Some(t) = title {
        thread = thread.with_title(t);
    }
    if let Some(m) = metadata {
        thread = thread.with_metadata(m);
    }
    thread
}

/// Resolves the thread of a request. Without a thread ID a new thread is created. A
/// thread ID found in storage is used if the caller owns it and refused otherwise. A
/// thread ID not found is created under that ID (so that a client may choose IDs ahead
/// of storage).
pub fn plan_thread(
    external_id: &str,
    thread_id: Option<u128>,
    found: Option<Thread>,
    agent_slug: Option<&str>,
    title: Option<&str>,
    metadata: Option<String>,
) -> (r: Result<ThreadPlan, AgentError>)
    requires
        found matches Some(t) ==> thread_id == Some(t.id),
    ensures
        r matches Ok(p) ==> spec_plan_thread(p).external_id@ == external_id@,
        match (thread_id, found) {
            (None, _) => r matches Ok(ThreadPlan::Create(t)) && t.metadata == metadata
                && opt_str_view(t.agent_slug) == (match agent_slug { Some(s) => Some(s@), None => None })
                && opt_str_view(t.title) == (match title { Some(s) => Some(s@), None => None }),
            (Some(id), Some(t)) => if t.external_id@ == external_id@ {
                r == Ok::<ThreadPlan, AgentError>(ThreadPlan::Existing(t))
            } else {
                r matches Err(AgentError::ThreadAccessDenied { thread_id: tid, .. }) && tid == id
            },
            (Some(id), None) => r matches Ok(ThreadPlan::Create(t)) && t.id == id && t.metadata == metadata
                && opt_str_view(t.agent_slug) == (match agent_slug { Some(s) => Some(s@), None => None })
                && opt_str_view(t.title) == (match title { Some(s) => Some(s@), None => None }),
        },
{
    match thread_id {
        None => Ok(ThreadPlan::Create(new_request_thread(None, external_id, agent_slug, title, metadata))),
        Some(id) => match found {
            Some(existing) => {
                if !crate::tensorzero::client::str_equals(existing.external_id.as_str(), external_id) {
                    return Err(AgentError::ThreadAccessDenied {
                        thread_id: id,
                        reason: "Thread belongs to another user".to_string(),
                    });
                }
                Ok(ThreadPlan::Existing(existing))
            },
            None => Ok(ThreadPlan::Create(new_request_thread(Some(id), external_id, agent_slug, title, metadata))),
        },
    }
}

/// Which user message a request stores.
#[derive(Debug)]
pub enum MessagePlan {
    /// Store this new message.
    Create(Message),
    /// Delete the thread's messages created after this one, then store this updated
    /// message.
    Edit(Message),
}

/// Resolves the user message of a request. Without a message ID a new message is
/// created. A message ID found in storage is edited if it is a user message of this
/// thread, and refused otherwise. A message ID not found is created under that ID.
pub fn plan_user_message(
    thread_id: u128,
    user_message_id: Option<u128>,
    found: Option<Message>,
    content: MessageContent,
) -> (r: Result<MessagePlan, AgentError>)
    requires
        found matches Some(m) ==> user_message_id == Some(m.id),
    ensures
        r matches Ok(MessagePlan::Create(m)) ==> m.thread_id == thread_id && m.role == Role::User
            && m.content@ == content@ && m.episode_id is None,
        r matches Ok(MessagePlan::Edit(m)) ==> m.thread_id == thread_id && m.role == Role::User
            && m.content@ == content@,
        match (user_message_id, found) {
            (None, _) => r matches Ok(MessagePlan::Create(_)),
            (Some(id), None) => r matches Ok(MessagePlan::Create(m)) && m.id == id,
            (Some(id), Some(old)) => if old.thread_id != thread_id || old.role != Role::User {
                r matches Err(AgentError::MessageAccessDenied { message_id, .. }) && message_id == id
            } else {
                r matches Ok(MessagePlan::Edit(m)) && m@ == (MessageView {
                    content: content@,
                    updated_at: m.updated_at,
                    ..old@
                })
            },
        },
{
    match user_message_id {
        None => Ok(MessagePlan::Create(Message::user(thread_id, content))),
        Some(id) => match found {
            Some(existing) => {
                if existing.thread_id != thread_id {
                    return Err(AgentError::MessageAccessDenied {
                        message_id: id,
                        reason: "Message belongs to another thread".to_string(),
                    });
                }
                if existing.role != Role::User {
                    return Err(AgentError::MessageAccessDenied {
                        message_id: id,
                        reason: "Only user messages can be edited".to_string(),
                    });
                }
                let mut updated = existing;
                updated.content = content;
                updated.touch();
                Ok(MessagePlan::Edit(updated))
            },
            None => Ok(MessagePlan::Create(Message::user_with_id(id, thread_id, content))),
        },
    }
}

/// Whether a request starts its thread: no thread ID, a thread not yet stored, or a
/// stored thread without messages. `stored_messages` is the thread's message count, or
/// `None` when the thread is not stored.
pub fn is_first_message(thread_id: Option<u128>, stored_messages: Option<usize>) -> (r: bool)
    ensures
        r <==> (thread_id is None || stored_messages is None || stored_messages == Some(0usize)),
{
    match thread_id {
        None => true,
        Some(_) => match stored_messages {
            Some(n) => n == 0,
            None => true,
        },
    }
}

/// Gives a thread its first title: on the first message, if the thread has no title and
/// one was generated. Returns whether the thread changed.
pub fn apply_first_title(thread: &mut Thread, is_first: bool, title: Option<String>) -> (r: bool)
    ensures
        r <==> (is_first && old(thread).title is None && title is Some),
        r ==> *final(thread) == (Thread { title, ..*old(thread) }),
        !r ==> *final(thread) == *old(thread),
{
    if is_first && thread.title.is_none() && title.is_some() {
        thread.title = title;
        true
    } else {
        false
    }
}

/// The most characters of text a title keeps before it is shortened.
pub const MAX_TITLE_LENGTH: usize = 50;

/// The text of the first text block.
pub open spec fn spec_first_text(bs: Seq<BlockView>) -> Option<Seq<char>>
    decreases bs.len(),
{
    if bs.len() == 0 {
        None
    } else {
        match bs[0] {
            BlockView::Text { text } => Some(text),
            _ => spec_first_text(bs.drop_first()),
        }
    }
}

/// The text a title is made from: plain text, or the first text block.
pub open spec fn spec_title_source(c: ContentView) -> Option<Seq<char>> {
    match c {
        ContentView::Text(t) => Some(t),
        ContentView::Blocks(bs) => spec_first_text(bs),
    }
}

/// Whether a character has the Unicode `White_Space` property: tab, line feed, line
/// tabulation, form feed, carriage return, space, next line, no-break space, Ogham
/// space mark, the spaces U+2000 to U+200A, line and paragraph separators, narrow
/// no-break space, medium mathematical space and ideographic space.
pub open spec fn spec_is_whitespace(c: char) -> bool {
    let u = c as u32;
    ||| 0x09 <= u <= 0x0d
    ||| u == 0x20
    ||| u == 0x85
    ||| u == 0xa0
    ||| u == 0x1680
    ||| 0x2000 <= u <= 0x200a
    ||| u == 0x2028
    ||| u == 0x2029
    ||| u == 0x202f
    ||| u == 0x205f
    ||| u == 0x3000
}

/// Whether the character has the Unicode `White_Space` property.
fn is_whitespace(c: char) -> (r: bool)
    ensures
        r == spec_is_whitespace(c),
{
    let u = c as u32;
    (0x09 <= u && u <= 0x0d) || u == 0x20 || u == 0x85 || u == 0xa0 || u == 0x1680
        || (0x2000 <= u && u <= 0x200a) || u == 0x2028 || u == 0x2029 || u == 0x202f
        || u == 0x205f || u == 0x3000
}

/// The index of the last whitespace character.
pub open spec fn spec_last_whitespace(s: Seq<char>) -> Option<int>
    decreases s.len(),
{
    if s.len() == 0 {
        None
    } else if spec_is_whitespace(s.last()) {
        Some(s.len() - 1)
    } else {
        spec_last_whitespace(s.drop_last())
    }
}

/// The last whitespace character lies inside the text.
pub proof fn lemma_last_whitespace_bounds(s: Seq<char>)
    ensures
        spec_last_whitespace(s) matches Some(k) ==> 0 <= k < s.len() && spec_is_whitespace(s[k]),
    decreases s.len(),
{
    if s.len() > 0 && !spec_is_whitespace(s.last()) {
        lemma_last_whitespace_bounds(s.drop_last());
    }
}

/// The title made from text: none for empty text; the text itself if it has at most
/// `MAX_TITLE_LENGTH` characters; otherwise its first `MAX_TITLE_LENGTH` characters,
/// cut back to before the last whitespace character if there is one, followed by `...`.
pub open spec fn spec_title(t: Seq<char>) -> Option<Seq<char>> {
    if t.len() == 0 {
        None
    } else if t.len() <= 50 {
        Some(t)
    } else {
        let cut = t.take(50);
        match spec_last_whitespace(cut) {
            Some(k) => Some(cut.take(k) + "..."@),
            None => Some(cut + "..."@),
        }
    }
}

/// A title never runs past `MAX_TITLE_LENGTH` characters of its text: a text that fits
/// is its own title; a longer one gives a start of the text of at most that many
/// characters, followed by `...`.
pub proof fn title_fits(t: Seq<char>)
    requires
        t.len() > 0,
    ensures
        spec_title(t) is Some,
        t.len() <= 50 ==> spec_title(t) == Some(t),
        t.len() > 50 ==> ({
            let x = spec_title(t)->0;
            &&& x.len() >= 3
            &&& x.skip(x.len() - 3) == "..."@
            &&& x.len() - 3 <= 50
            &&& x.take(x.len() - 3) == t.take(x.len() - 3)
        }),
{
    if t.len() > 50 {
        let cut = t.take(50);
        reveal_strlit("...");
        lemma_last_whitespace_bounds(cut);
        let x = spec_title(t)->0;
        match spec_last_whitespace(cut) {
            Some(k) => {
                assert(x == cut.take(k) + "..."@);
                assert(x.take(x.len() - 3) =~= cut.take(k));
                assert(x.skip(x.len() - 3) =~= "..."@);
                assert(cut.take(k) =~= t.take(k));
            },
            None => {
                assert(x == cut + "..."@);
                assert(x.take(x.len() - 3) =~= cut);
                assert(x.skip(x.len() - 3) =~= "..."@);
            },
        }
    }
}

/// The text a title is made from.
pub fn title_source(content: &MessageContent) -> (r: Option<&String>)
    ensures
        match r {
            Some(s) => spec_title_source(content@) == Some(s@),
            None => spec_title_source(content@) is None,
        },
{
    match content {
        MessageContent::Text(t) => Some(t),
        MessageContent::Blocks(blocks) => {
            let ghost bv = crate::models::content::blocks_view(blocks@);
            let mut i: usize = 0;
            assert(bv.skip(0) =~= bv);
            assert(content@ == ContentView::Blocks(bv));
            while i < blocks.len()
                invariant
                    i <= blocks@.len(),
                    content@ == ContentView::Blocks(bv),
                    bv == crate::models::content::blocks_view(blocks@),
                    spec_first_text(bv) == spec_first_text(bv.skip(i as int)),
                decreases blocks@.len() - i,
            {
                assert(bv.skip(i as int)[0] == blocks@[i as int]@);
                assert(bv.skip(i as int).drop_first() =~= bv.skip(i + 1));
                if let ContentBlock::Text { text } = &blocks[i] {
                    assert(spec_first_text(bv.skip(i as int)) == Some(text@));
                    assert(content@ == ContentView::Blocks(bv));
                    assert(spec_title_source(content@) == spec_first_text(bv));
                    return Some(text);
                }
                i = i + 1;
            }
            None
        },
    }
}

/// Generates a title from message content: see [`spec_title`].
pub fn generate_title(content: &MessageContent) -> (r: Option<String>)
    ensures
        opt_str_view(r) == match spec_title_source(content@) {
            Some(t) => spec_title(t),
            None => None,
        },
{
    let text = match title_source(content) {
        Some(t) => t,
        None => return None,
    };
    let ghost t = text@;
    if text.as_str().is_empty() {
        return None;
    }
    if text.as_str().unicode_len() <= MAX_TITLE_LENGTH {
        return Some(text.clone());
    }
    let chars = chars_of(text.as_str());
    let mut cut = String::new();
    let mut before_space: Option<String> = None;
    let mut i: usize = 0;
    while i < MAX_TITLE_LENGTH
        invariant
            chars@ == t,
            t.len() > 50,
            i <= 50,
            cut@ == t.take(i as int),
            opt_str_view(before_space) == match spec_last_whitespace(t.take(i as int)) {
                Some(k) => Some(t.take(k)),
                None => None,
            },
        decreases 50 - i,
    {
        let c = chars[i];
        proof {
            assert(t.take(i + 1) =~= t.take(i as int).push(c));
            assert(t.take(i + 1).drop_last() =~= t.take(i as int));
        }
        if is_whitespace(c) {
            before_space = Some(cut.clone());
            assert(t.take(i as int).len() == i);
            assert(t.take(i + 1).take(i as int) =~= t.take(i as int));
        }
        push_char(&mut cut, c);
        i = i + 1;
        proof {
            lemma_last_whitespace_bounds(t.take(i as int));
            match spec_last_whitespace(t.take(i as int)) {
                Some(k) => {
                    assert(t.take(i as int).take(k) =~= t.take(k));
                },
                None => {},
            }
        }
    }
    proof {
        lemma_last_whitespace_bounds(t.take(50));
        match spec_last_whitespace(t.take(50)) {
            Some(k) => {
                assert(t.take(50).take(k) =~= t.take(k));
            },
            None => {},
        }
    }
    let mut title = match before_space {
        Some(b) => b,
        None => cut,
    };
    title.append("...");
    Some(title)
}

} // verus!
