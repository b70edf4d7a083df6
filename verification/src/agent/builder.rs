//! Agent settings: the model to call, prompts, credentials and tool options, with the
//! checks made before an agent is built and the inference requests built from them.

use vstd::prelude::*;
use crate::context::config::ContextConfig;
use crate::error::AgentError;
use crate::stream::config::{spec_default_stream_config, StreamConfig};
use crate::tensorzero::request::{
    clone_input_messages, clone_opt_string, input_messages_view, opt_str_view, InferenceRequest,
    InferenceRequestBuilder, InputMessage, InputMessageView, ToolChoice, ToolChoiceView,
    ToolDefinition as TzToolDefinition,
};

verus! {

/// Model specification: a configured gateway function, or a model called directly.
#[derive(Debug)]
pub enum ModelSpec {
    /// Use a pre-configured TensorZero function.
    Function(String),
    /// Use a model directly (ad-hoc function).
    Model(String),
}

impl Clone for ModelSpec {
    fn clone(&self) -> (r: Self)
        ensures
            match (r, *self) {
                (ModelSpec::Function(a), ModelSpec::Function(b)) => a@ == b@,
                (ModelSpec::Model(a), ModelSpec::Model(b)) => a@ == b@,
                _ => false,
            },
    {
        match self {
            ModelSpec::Function(n) => ModelSpec::Function(n.clone()),
            ModelSpec::Model(n) => ModelSpec::Model(n.clone()),
        }
    }
}

impl ModelSpec {
    /// Whether this is a function spec.
    pub fn is_function(&self) -> (r: bool)
        ensures
            r <==> *self is Function,
    {
        match self {
            ModelSpec::Function(_) => true,
            ModelSpec::Model(_) => false,
        }
    }

    /// Whether this is a model spec.
    pub fn is_model(&self) -> (r: bool)
        ensures
            r <==> *self is Model,
    {
        match self {
            ModelSpec::Function(_) => false,
            ModelSpec::Model(_) => true,
        }
    }

    /// The function name, if this is a function spec.
    pub fn as_function(&self) -> (r: Option<&str>)
        ensures
            match *self {
                ModelSpec::Function(n) => r matches Some(s) && s@ == n@,
                ModelSpec::Model(_) => r is None,
            },
    {
        match self {
            ModelSpec::Function(n) => Some(n.as_str()),
            ModelSpec::Model(_) => None,
        }
    }

    /// The model name, if this is a model spec.
    pub fn as_model(&self) -> (r: Option<&str>)
        ensures
            match *self {
                ModelSpec::Model(n) => r matches Some(s) && s@ == n@,
                ModelSpec::Function(_) => r is None,
            },
    {
        match self {
            ModelSpec::Model(n) => Some(n.as_str()),
            ModelSpec::Function(_) => None,
        }
    }

    /// Checks the specification: the function or model name must not be empty.
    pub fn validate(&self) -> (r: Result<(), AgentError>)
        ensures
            r is Ok <==> match *self {
                ModelSpec::Function(n) => n@.len() > 0,
                ModelSpec::Model(n) => n@.len() > 0,
            },
            r matches Err(e) ==> (e matches AgentError::Configuration { message } && message@ == match *self {
                ModelSpec::Function(_) => "function_name cannot be empty"@,
                ModelSpec::Model(_) => "model_name cannot be empty"@,
            }),
    {
        match self {
            ModelSpec::Function(n) => if n.as_str().is_empty() {
                Err(AgentError::Configuration { message: "function_name cannot be empty".to_string() })
            } else {
                Ok(())
            },
            ModelSpec::Model(n) => if n.as_str().is_empty() {
                Err(AgentError::Configuration { message: "model_name cannot be empty".to_string() })
            } else {
                Ok(())
            },
        }
    }
}

/// Everything an agent is configured with besides its gateway client, its storage
/// and its tool executors.
#[derive(Debug)]
pub struct AgentSettings {
    /// The function or model to call.
    pub model_spec: ModelSpec,
    /// The maximum number of inference calls in one tool execution loop.
    pub max_iterations: usize,
    /// Stream configuration.
    pub stream_config: StreamConfig,
    /// Context configuration.
    pub context_config: Option<ContextConfig>,
    /// System prompt override.
    pub system_prompt: Option<String>,
    /// Dynamic credentials (JSON text).
    pub credentials: Option<String>,
    /// Tags for observability (JSON text).
    pub tags: Option<String>,
    /// Tool choice strategy.
    pub tool_choice: Option<ToolChoice>,
    /// Whether parallel tool calls are allowed.
    pub parallel_tool_calls: Option<bool>,
}

/// Whether a request was built from the given settings, context, tools and episode.
pub open spec fn spec_request_built(
    settings: AgentSettings,
    messages: Seq<InputMessageView>,
    tools: Seq<TzToolDefinition>,
    episode_id: Option<u128>,
    stream: bool,
    req: InferenceRequest,
) -> bool {
    &&& match settings.model_spec {
        ModelSpec::Function(n) => opt_str_view(req.function_name) == Some(n@) && req.model_name is None,
        ModelSpec::Model(n) => opt_str_view(req.model_name) == Some(n@) && req.function_name is None,
    }
    &&& input_messages_view(req.input.messages@) == messages
    &&& req.episode_id == episode_id
    &&& req.stream == stream
    &&& opt_str_view(req.input.system) == opt_str_view(settings.system_prompt)
    &&& opt_str_view(req.credentials) == opt_str_view(settings.credentials)
    &&& opt_str_view(req.tags) == opt_str_view(settings.tags)
    &&& req.parallel_tool_calls == settings.parallel_tool_calls
    &&& req.params is None
    &&& if tools.len() == 0 {
        req.additional_tools is None && req.tool_choice is None
    } else {
        &&& req.additional_tools matches Some(t) && t@.len() == tools.len()
            && forall|i: int| 0 <= i < tools.len() ==> (#[trigger] t@[i]).name@ == tools[i].name@
                && t@[i].description@ == tools[i].description@ && t@[i].parameters@ == tools[i].parameters@
        &&& req.tool_choice matches Some(c) && c@ == match settings.tool_choice {
            Some(sc) => sc@,
            None => ToolChoiceView::Auto,
        }
    }
}

/// Copies tool definitions.
fn clone_tools(tools: &Vec<TzToolDefinition>) -> (r: Vec<TzToolDefinition>)
    ensures
        r@.len() == tools@.len(),
        forall|i: int| 0 <= i < tools@.len() ==> (#[trigger] r@[i]).name@ == tools@[i].name@
            && r@[i].description@ == tools@[i].description@ && r@[i].parameters@ == tools@[i].parameters@,
{
    let mut r: Vec<TzToolDefinition> = Vec::new();
    let mut i: usize = 0;
    while i < tools.len()
        invariant
            i <= tools@.len(),
            r@.len() == i,
            forall|j: int| 0 <= j < i ==> (#[trigger] r@[j]).name@ == tools@[j].name@
                && r@[j].description@ == tools@[j].description@ && r@[j].parameters@ == tools@[j].parameters@,
        decreases tools@.len() - i,
    {
        r.push(tools[i].clone());
        i = i + 1;
    }
    r
}

impl AgentSettings {
    /// Settings for the given model: ten iterations, default streaming, nothing else set.
    pub fn new(model_spec: ModelSpec) -> (r: Self)
        ensures
            r.model_spec == model_spec,
            r.max_iterations == 10,
            r.stream_config == spec_default_stream_config(),
            r.context_config is None,
            r.system_prompt is None,
            r.credentials is None,
            r.tags is None,
            r.tool_choice is None,
            r.parallel_tool_calls is None,
    {
        AgentSettings {
            model_spec,
            max_iterations: 10,
            stream_config: StreamConfig::new(),
            context_config: None,
            system_prompt: None,
            credentials: None,
            tags: None,
            tool_choice: None,
            parallel_tool_calls: None,
        }
    }

    /// Builds the inference request for one iteration: the context messages, the
    /// function or model, the episode, the system prompt, credentials and tags, the tools
    /// with the tool choice (automatic unless set) when there are tools, and the
    /// parallel-call setting.
    pub fn build_request(
        &self,
        messages: &Vec<InputMessage>,
        tools: &Vec<TzToolDefinition>,
        episode_id: Option<u128>,
        stream: bool,
    ) -> (r: InferenceRequest)
        ensures
            spec_request_built(*self, input_messages_view(messages@), tools@, episode_id, stream, r),
    {
        let mut builder = InferenceRequestBuilder::new().messages(clone_input_messages(messages));
        builder = match &self.model_spec {
            ModelSpec::Function(name) => builder.function_name(name.as_str()),
            ModelSpec::Model(name) => builder.model(name.as_str()),
        };
        if let Some(eid) = episode_id {
            builder = builder.episode_id(eid);
        }
        if stream {
            builder = builder.stream();
        }
        if let Some(prompt) = &self.system_prompt {
            builder = builder.system(prompt.as_str());
        }
        if let Some(creds) = &self.credentials {
            builder = builder.credentials(creds.clone());
        }
        if let Some(tags) = &self.tags {
            builder = builder.tags(tags.clone());
        }
        if tools.len() > 0 {
            builder = builder.additional_tools(clone_tools(tools));
            let choice = match &self.tool_choice {
                Some(c) => c.clone(),
                None => ToolChoice::Auto,
            };
            builder = builder.tool_choice(choice);
        }
        if let Some(parallel) = self.parallel_tool_calls {
            builder = builder.parallel_tool_calls(parallel);
        }
        match builder.build() {
            Ok(req) => req,
            Err(_) => vstd::pervasive::unreached(),
        }
    }
}

} // verus!
