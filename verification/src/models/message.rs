//! Messages of a conversation thread.

use vstd::prelude::*;
use crate::ids::{new_id, now_micros};
use crate::models::content::{
    blocks_view, spec_content_text, spec_has_tool_uses, spec_is_tool_use, BlockView, ContentBlock,
    ContentView, MessageContent,
};

verus! {

/// Role of a message sender.
#[derive(Debug, Clone, Copy, PartialEq, Eq, Structural)]
pub enum Role {
    /// Message from the user.
    User,
    /// Message from the assistant.
    Assistant,
}

/// The text name of a role.
pub open spec fn spec_role_name(role: Role) -> Seq<char> {
    match role {
        Role::User => "user"@,
        Role::Assistant => "assistant"@,
    }
}

impl Role {
    /// The text name of the role: `user` or `assistant`.
    pub fn as_str(&self) -> (r: &'static str)
        ensures
            r@ == spec_role_name(*self),
    {
        match self {
            Role::User => "user",
            Role::Assistant => "assistant",
        }
    }
}

/// A message in a conversation thread. Identifiers are 128-bit integers and
/// timestamps are microseconds since the Unix epoch.
#[derive(Debug)]
pub struct Message {
    /// Unique message identifier.
    pub id: u128,
    /// Thread this message belongs to.
    pub thread_id: u128,
    /// Role of the sender.
    pub role: Role,
    /// Message content.
    pub content: MessageContent,
    /// TensorZero episode ID.
    pub episode_id: Option<u128>,
    /// When the message was created.
    pub created_at: i64,
    /// When the message was last updated.
    pub updated_at: i64,
}

/// Abstract value of a [`Message`].
pub struct MessageView {
    pub id: u128,
    pub thread_id: u128,
    pub role: Role,
    pub content: ContentView,
    pub episode_id: Option<u128>,
    pub created_at: i64,
    pub updated_at: i64,
}

impl View for Message {
    type V = MessageView;

    open spec fn view(&self) -> MessageView {
        MessageView {
            id: self.id,
            thread_id: self.thread_id,
            role: self.role,
            content: self.content@,
            episode_id: self.episode_id,
            created_at: self.created_at,
            updated_at: self.updated_at,
        }
    }
}

impl Clone for Message {
    fn clone(&self) -> (r: Self)
        ensures
            r@ == self@,
    {
        Message {
            id: self.id,
            thread_id: self.thread_id,
            role: self.role,
            content: self.content.clone(),
            episode_id: self.episode_id,
            created_at: self.created_at,
            updated_at: self.updated_at,
        }
    }
}

/// Abstract value of a sequence of messages.
pub open spec fn messages_view(v: Seq<Message>) -> Seq<MessageView> {
    v.map_values(|m: Message| m@)
}

impl Message {
    /// A message built from all of its parts; it has no episode and was created and
    /// last updated at `now`.
    pub fn with_parts(id: u128, thread_id: u128, role: Role, content: MessageContent, now: i64) -> (r: Self)
        ensures
            r@ == (MessageView {
                id,
                thread_id,
                role,
                content: content@,
                episode_id: None,
                created_at: now,
                updated_at: now,
            }),
    {
        Message { id, thread_id, role, content, episode_id: None, created_at: now, updated_at: now }
    }

    /// Create a new message with a fresh identifier, stamped with the current time.
    pub fn new(thread_id: u128, role: Role, content: MessageContent) -> (r: Self)
        ensures
            r.thread_id == thread_id,
            r.role == role,
            r.content@ == content@,
            r.episode_id is None,
            r.created_at == r.updated_at,
    {
        let id = new_id();
        let now = now_micros();
        Self::with_parts(id, thread_id, role, content, now)
    }

    /// Create a new user message.
    pub fn user(thread_id: u128, content: MessageContent) -> (r: Self)
        ensures
            r.thread_id == thread_id,
            r.role == Role::User,
            r.content@ == content@,
            r.episode_id is None,
            r.created_at == r.updated_at,
    {
        Self::new(thread_id, Role::User, content)
    }

    /// Create a new user message with a given identifier.
    pub fn user_with_id(id: u128, thread_id: u128, content: MessageContent) -> (r: Self)
        ensures
            r.id == id,
            r.thread_id == thread_id,
            r.role == Role::User,
            r.content@ == content@,
            r.episode_id is None,
            r.created_at == r.updated_at,
    {
        let now = now_micros();
        Self::with_parts(id, thread_id, Role::User, content, now)
    }

    /// Create a new assistant message.
    pub fn assistant(thread_id: u128, content: MessageContent) -> (r: Self)
        ensures
            r.thread_id == thread_id,
            r.role == Role::Assistant,
            r.content@ == content@,
            r.episode_id is None,
            r.created_at == r.updated_at,
    {
        Self::new(thread_id, Role::Assistant, content)
    }

    /// Set the episode ID.
    pub fn with_episode_id(self, episode_id: u128) -> (r: Self)
        ensures
            r@ == (MessageView { episode_id: Some(episode_id), ..self@ }),
    {
        Message { episode_id: Some(episode_id), ..self }
    }

    /// Set the `updated_at` timestamp to `now`.
    pub fn touch_at(&mut self, now: i64)
        ensures
            final(self)@ == (MessageView { updated_at: now, ..old(self)@ }),
    {
        self.updated_at = now;
    }

    /// Set the `updated_at` timestamp to the current time.
    pub fn touch(&mut self)
        ensures
            final(self)@ == (MessageView { updated_at: final(self).updated_at, ..old(self)@ }),
    {
        let now = now_micros();
        self.touch_at(now);
    }

    /// The text content of this message.
    pub fn text(&self) -> (r: String)
        ensures
            r@ == spec_content_text(self.content@),
    {
        self.content.as_string()
    }

    /// Whether this message contains tool uses.
    pub fn has_tool_uses(&self) -> (r: bool)
        ensures
            r <==> spec_has_tool_uses(self.content@),
    {
        self.content.has_tool_uses()
    }

    /// All tool use blocks of this message, in order.
    pub fn tool_uses(&self) -> (r: Vec<&ContentBlock>)
        ensures
            r@.map_values(|b: &ContentBlock| b@) == match self.content@ {
                ContentView::Text(_) => Seq::<BlockView>::empty(),
                ContentView::Blocks(b) => b.filter(|x: BlockView| spec_is_tool_use(x)),
            },
    {
        self.content.tool_uses()
    }
}

/// Builder for a user message that carries tool results.
#[derive(Debug)]
pub struct ToolResultMessageBuilder {
    pub thread_id: Option<u128>,
    pub results: Vec<ContentBlock>,
}

impl ToolResultMessageBuilder {
    /// Create a new builder with no thread and no results.
    pub fn new() -> (r: Self)
        ensures
            r.thread_id is None,
            r.results@.len() == 0,
    {
        ToolResultMessageBuilder { thread_id: None, results: Vec::new() }
    }

    /// Set the thread ID.
    pub fn thread_id(self, thread_id: u128) -> (r: Self)
        ensures
            r.thread_id == Some(thread_id),
            r.results == self.results,
    {
        ToolResultMessageBuilder { thread_id: Some(thread_id), ..self }
    }

    /// Add a successful tool result.
    pub fn result(self, tool_use_id: &str, tool_name: &str, content: &str) -> (r: Self)
        ensures
            r.thread_id == self.thread_id,
            blocks_view(r.results@) == blocks_view(self.results@).push(BlockView::ToolResult {
                tool_use_id: tool_use_id@,
                name: tool_name@,
                content: content@,
                is_error: false,
            }),
    {
        let mut s = self;
        s.results.push(ContentBlock::tool_result(tool_use_id, tool_name, content));
        assert(blocks_view(s.results@) =~= blocks_view(self.results@).push(BlockView::ToolResult {
            tool_use_id: tool_use_id@,
            name: tool_name@,
            content: content@,
            is_error: false,
        }));
        s
    }

    /// Add a failed tool result.
    pub fn error(self, tool_use_id: &str, tool_name: &str, error: &str) -> (r: Self)
        ensures
            r.thread_id == self.thread_id,
            blocks_view(r.results@) == blocks_view(self.results@).push(BlockView::ToolResult {
                tool_use_id: tool_use_id@,
                name: tool_name@,
                content: error@,
                is_error: true,
            }),
    {
        let mut s = self;
        s.results.push(ContentBlock::tool_error(tool_use_id, tool_name, error));
        assert(blocks_view(s.results@) =~= blocks_view(self.results@).push(BlockView::ToolResult {
            tool_use_id: tool_use_id@,
            name: tool_name@,
            content: error@,
            is_error: true,
        }));
        s
    }

    /// Build the message: a user message holding the results, if a thread is set and
    /// at least one result was added.
    pub fn build(self) -> (r: Option<Message>)
        ensures
            r is Some <==> (self.thread_id is Some && self.results@.len() > 0),
            r matches Some(m) ==> {
                &&& Some(m.thread_id) == self.thread_id
                &&& m.role == Role::User
                &&& m.content@ == ContentView::Blocks(blocks_view(self.results@))
                &&& m.episode_id is None
                &&& m.created_at == m.updated_at
            },
    {
        let thread_id = match self.thread_id {
            Some(t) => t,
            None => return None,
        };
        if self.results.len() == 0 {
            return None;
        }
        Some(Message::new(thread_id, Role::User, MessageContent::Blocks(self.results)))
    }
}

} // verus!
