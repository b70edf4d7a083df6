//! Context configuration for agent conversations: message limits, tool message
//! handling, and an override for tool execution loops.

use vstd::prelude::*;
use crate::context::filter::{spec_filter, ContextFilter};
use crate::models::message::{messages_view, Message, MessageView};

verus! {

/// Configuration for how tool-related messages are handled in context.
#[derive(Debug, Clone, Copy, PartialEq, Eq, Structural)]
pub struct ToolsContextConfig {
    /// Number of recent tool call/result pairs to retain.
    pub retain_last: usize,
    /// Maximum number of tool results to include per message.
    pub limit_per_message: Option<usize>,
    /// Whether to deduplicate repeated tool calls with the same arguments.
    pub deduplicate: bool,
}

impl Default for ToolsContextConfig {
    fn default() -> (r: Self)
        ensures
            r == (ToolsContextConfig { retain_last: 5, limit_per_message: None, deduplicate: false }),
    {
        ToolsContextConfig { retain_last: 5, limit_per_message: None, deduplicate: false }
    }
}

impl ToolsContextConfig {
    /// The default configuration: retain the last five pairs, no per-message limit,
    /// no deduplication.
    pub fn new() -> (r: Self)
        ensures
            r == (ToolsContextConfig { retain_last: 5, limit_per_message: None, deduplicate: false }),
    {
        ToolsContextConfig { retain_last: 5, limit_per_message: None, deduplicate: false }
    }

    /// Set the number of recent tool pairs to retain.
    pub fn retain_last(self, count: usize) -> (r: Self)
        ensures
            r == (ToolsContextConfig { retain_last: count, ..self }),
    {
        ToolsContextConfig { retain_last: count, ..self }
    }

    /// Set the maximum number of tool results per message.
    pub fn limit_per_message(self, limit: usize) -> (r: Self)
        ensures
            r == (ToolsContextConfig { limit_per_message: Some(limit), ..self }),
    {
        ToolsContextConfig { limit_per_message: Some(limit), ..self }
    }

    /// Enable or disable tool call deduplication.
    pub fn deduplicate(self, enabled: bool) -> (r: Self)
        ensures
            r == (ToolsContextConfig { deduplicate: enabled, ..self }),
    {
        ToolsContextConfig { deduplicate: enabled, ..self }
    }
}

/// Configuration for conversation context management.
#[derive(Debug)]
pub struct ContextConfig {
    /// Maximum number of messages to include in context.
    pub max_messages: usize,
    /// Configuration for tool message handling.
    pub tools: ToolsContextConfig,
    /// Configuration used instead during tool execution loops.
    pub loop_override: Option<Box<ContextConfig>>,
}

/// The configuration used in tool execution loops: the override if set, else itself.
pub open spec fn spec_for_loop(c: &ContextConfig) -> &ContextConfig {
    match &c.loop_override {
        Some(b) => &**b,
        None => c,
    }
}

impl Clone for ContextConfig {
    fn clone(&self) -> (r: Self)
        ensures
            r == *self,
        decreases self,
    {
        let loop_override = match &self.loop_override {
            Some(b) => Some(Box::new((**b).clone())),
            None => None,
        };
        ContextConfig { max_messages: self.max_messages, tools: self.tools, loop_override }
    }
}

impl Default for ContextConfig {
    fn default() -> (r: Self)
        ensures
            r.max_messages == 20,
            r.tools == (ToolsContextConfig { retain_last: 5, limit_per_message: None, deduplicate: false }),
            r.loop_override is None,
    {
        ContextConfig { max_messages: 20, tools: ToolsContextConfig::new(), loop_override: None }
    }
}

impl ContextConfig {
    /// The default configuration: twenty messages, default tool handling, no override.
    pub fn new() -> (r: Self)
        ensures
            r.max_messages == 20,
            r.tools == (ToolsContextConfig { retain_last: 5, limit_per_message: None, deduplicate: false }),
            r.loop_override is None,
    {
        ContextConfig { max_messages: 20, tools: ToolsContextConfig::new(), loop_override: None }
    }

    /// Set the maximum number of messages.
    pub fn max_messages(self, max: usize) -> (r: Self)
        ensures
            r == (ContextConfig { max_messages: max, ..self }),
    {
        ContextConfig { max_messages: max, ..self }
    }

    /// Set the tools configuration.
    pub fn tools(self, config: ToolsContextConfig) -> (r: Self)
        ensures
            r == (ContextConfig { tools: config, ..self }),
    {
        ContextConfig { tools: config, ..self }
    }

    /// Set the configuration used in tool execution loops.
    pub fn loop_override(self, config: ContextConfig) -> (r: Self)
        ensures
            r == (ContextConfig { loop_override: Some(Box::new(config)), ..self }),
    {
        ContextConfig { loop_override: Some(Box::new(config)), ..self }
    }

    /// The configuration to use in a tool execution loop: the override if set,
    /// otherwise this configuration itself.
    pub fn for_loop(&self) -> (r: &ContextConfig)
        ensures
            r == spec_for_loop(self),
    {
        match &self.loop_override {
            Some(b) => &**b,
            None => self,
        }
    }

    /// A tight configuration, for loops: five messages, one tool pair, three results
    /// per message.
    pub fn minimal() -> (r: Self)
        ensures
            r.max_messages == 5,
            r.tools == (ToolsContextConfig { retain_last: 1, limit_per_message: Some(3), deduplicate: false }),
            r.loop_override is None,
    {
        ContextConfig {
            max_messages: 5,
            tools: ToolsContextConfig { retain_last: 1, limit_per_message: Some(3), deduplicate: false },
            loop_override: None,
        }
    }

    /// A standard configuration: ten messages, three tool pairs, five results per
    /// message, and the minimal configuration in loops.
    pub fn standard() -> (r: Self)
        ensures
            r.max_messages == 10,
            r.tools == (ToolsContextConfig { retain_last: 3, limit_per_message: Some(5), deduplicate: false }),
            (r.loop_override matches Some(b) && b.max_messages == 5
                && b.tools == (ToolsContextConfig { retain_last: 1, limit_per_message: Some(3), deduplicate: false })
                && b.loop_override is None),
    {
        ContextConfig {
            max_messages: 10,
            tools: ToolsContextConfig { retain_last: 3, limit_per_message: Some(5), deduplicate: false },
            loop_override: Some(Box::new(Self::minimal())),
        }
    }

    /// A large configuration: thirty messages, ten tool pairs, deduplication, and a
    /// ten-message configuration in loops.
    pub fn large() -> (r: Self)
        ensures
            r.max_messages == 30,
            r.tools == (ToolsContextConfig { retain_last: 10, limit_per_message: None, deduplicate: true }),
            (r.loop_override matches Some(b) && b.max_messages == 10
                && b.tools == (ToolsContextConfig { retain_last: 3, limit_per_message: Some(5), deduplicate: false })
                && b.loop_override is None),
    {
        ContextConfig {
            max_messages: 30,
            tools: ToolsContextConfig { retain_last: 10, limit_per_message: None, deduplicate: true },
            loop_override: Some(Box::new(ContextConfig {
                max_messages: 10,
                tools: ToolsContextConfig { retain_last: 3, limit_per_message: Some(5), deduplicate: false },
                loop_override: None,
            })),
        }
    }

    /// The message filter this configuration stands for: at most `max_messages`
    /// messages, tool calls and results kept together.
    pub fn filter(&self) -> (r: ContextFilter)
        ensures
            r == (ContextFilter {
                max_messages: Some(self.max_messages),
                max_characters: None,
                include_system: true,
                preserve_tool_pairs: true,
            }),
    {
        ContextFilter::new().max_messages(self.max_messages)
    }

    /// Filter a history with this configuration's filter.
    pub fn filter_messages(&self, messages: Vec<Message>) -> (r: Vec<Message>)
        ensures
            messages_view(r@) == spec_filter(
                ContextFilter {
                    max_messages: Some(self.max_messages),
                    max_characters: None,
                    include_system: true,
                    preserve_tool_pairs: true,
                },
                messages_view(messages@),
            ),
    {
        self.filter().filter_messages(messages)
    }
}

} // verus!
