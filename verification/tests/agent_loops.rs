use balungpisah_adk::agent::lifecycle::{generate_title, is_first_message};
use balungpisah_adk::agent::{AgentSettings, ChatLoop, ChatStep, ModelSpec};
use balungpisah_adk::error::AgentError;
use balungpisah_adk::models::{ContentBlock, MessageContent};
use balungpisah_adk::stream::executor::{StreamLoop, StreamStep};
use balungpisah_adk::stream::SseEvent;
use balungpisah_adk::tensorzero::request::{InputContentBlock, InputMessage, MessageRole};
use balungpisah_adk::tensorzero::response::{
    ContentBlock as TzContentBlock, InferenceResponse, StreamContentBlock, StreamEvent, ToolCallBlock, Usage,
};
use balungpisah_adk::tools::ToolResult;

fn tool_call(id: &str, name: &str, args: &str) -> TzContentBlock {
    TzContentBlock::ToolCall(ToolCallBlock {
        id: id.to_string(),
        name: Some(name.to_string()),
        arguments: Some(args.to_string()),
        raw_name: Some(name.to_string()),
        raw_arguments: Some(args.to_string()),
    })
}

fn response(content: Vec<TzContentBlock>, input: u32, output: u32) -> InferenceResponse {
    InferenceResponse {
        inference_id: 11,
        episode_id: 22,
        content,
        usage: Some(Usage { input_tokens: input, output_tokens: output }),
    }
}

#[test]
fn model_spec_validation() {
    assert!(ModelSpec::Function("chat".to_string()).validate().is_ok());
    match ModelSpec::Function(String::new()).validate() {
        Err(AgentError::Configuration { message }) => assert_eq!(message, "function_name cannot be empty"),
        other => panic!("unexpected {:?}", other),
    }
    match ModelSpec::Model(String::new()).validate() {
        Err(AgentError::Configuration { message }) => assert_eq!(message, "model_name cannot be empty"),
        other => panic!("unexpected {:?}", other),
    }
}

#[test]
fn request_carries_function_and_context() {
    let mut settings = AgentSettings::new(ModelSpec::Function("chat".to_string()));
    settings.system_prompt = Some("be brief".to_string());
    let messages = vec![InputMessage::user("hi")];
    let req = settings.build_request(&messages, &Vec::new(), Some(5), true);
    assert_eq!(req.function_name.as_deref(), Some("chat"));
    assert!(req.model_name.is_none());
    assert_eq!(req.episode_id, Some(5));
    assert!(req.stream);
    assert_eq!(req.input.system.as_deref(), Some("be brief"));
    assert_eq!(req.input.messages.len(), 1);
    assert!(req.additional_tools.is_none());
    assert!(req.tool_choice.is_none());
}

#[test]
fn chat_loop_stops_after_max_iterations() {
    let settings = AgentSettings::new(ModelSpec::Model("gpt-4o".to_string()));
    let mut chat = ChatLoop::new(2, vec![InputMessage::user("hi")]);
    assert!(chat.start_iteration(&settings, &Vec::new()).is_ok());
    assert!(chat.start_iteration(&settings, &Vec::new()).is_ok());
    match chat.start_iteration(&settings, &Vec::new()) {
        Err(AgentError::MaxIterationsExceeded { max }) => assert_eq!(max, 2),
        other => panic!("unexpected {:?}", other),
    }
    assert_eq!(chat.iteration, 2);
}

#[test]
fn chat_loop_runs_tools_then_finishes() {
    let settings = AgentSettings::new(ModelSpec::Function("chat".to_string()));
    let mut chat = ChatLoop::new(5, vec![InputMessage::user("weather?")]);
    chat.start_iteration(&settings, &Vec::new()).unwrap();
    let first = response(vec![TzContentBlock::Text { text: "Checking.".to_string() }, tool_call("c1", "weather", "{\"city\":\"NYC\"}")], 10, 3);
    let calls = match chat.handle_response(7, &first) {
        ChatStep::ExecuteTools(calls) => calls,
        other => panic!("unexpected {:?}", other),
    };
    assert_eq!(calls.len(), 1);
    assert_eq!(calls[0].id, "c1");
    assert_eq!(calls[0].name, "weather");
    assert_eq!(calls[0].arguments, "{\"city\":\"NYC\"}");
    assert_eq!(chat.messages.len(), 2);
    chat.record_tool_results(&vec![ToolResult::success("c1", "weather", "Sunny")]);
    assert_eq!(chat.messages.len(), 3);
    chat.start_iteration(&settings, &Vec::new()).unwrap();
    let last = response(vec![TzContentBlock::Text { text: "It is sunny.".to_string() }], 20, 4);
    match chat.handle_response(7, &last) {
        ChatStep::Finished { message, response } => {
            assert_eq!(response.text(), "It is sunny.");
            assert_eq!(response.iterations, 2);
            assert_eq!(response.usage.input_tokens, 30);
            assert_eq!(response.usage.output_tokens, 7);
            assert_eq!(response.usage.total_tokens(), 37);
            assert_eq!(response.episode_id, 22);
            assert_eq!(message.thread_id, 7);
            match &message.content {
                MessageContent::Blocks(blocks) => {
                    assert_eq!(blocks.len(), 4);
                    assert!(blocks[1].is_tool_use());
                    assert!(blocks[2].is_tool_result());
                },
                other => panic!("unexpected {:?}", other),
            }
        },
        other => panic!("unexpected {:?}", other),
    }
}

#[test]
fn titles_from_first_messages() {
    assert_eq!(generate_title(&MessageContent::text("Hello there")), Some("Hello there".to_string()));
    assert_eq!(generate_title(&MessageContent::text("")), None);
    let long = "This is a rather long first message that goes past the limit";
    assert_eq!(generate_title(&MessageContent::text(long)), Some("This is a rather long first message that goes...".to_string()));
    let no_space = "x".repeat(60);
    assert_eq!(generate_title(&MessageContent::text(&no_space)), Some(format!("{}...", "x".repeat(50))));
    let blocks = MessageContent::Blocks(vec![
        ContentBlock::tool_result("c", "t", "r"),
        ContentBlock::text("from blocks"),
    ]);
    assert_eq!(generate_title(&blocks), Some("from blocks".to_string()));
    assert_eq!(generate_title(&MessageContent::Blocks(vec![])), None);
}

#[test]
fn first_message_detection() {
    assert!(is_first_message(None, None));
    assert!(is_first_message(Some(1), Some(0)));
    assert!(!is_first_message(Some(1), Some(3)));
}

#[test]
fn stream_loop_emits_deltas_and_collects_blocks() {
    let settings = AgentSettings::new(ModelSpec::Function("chat".to_string()));
    let mut stream = StreamLoop::new(99, 3, vec![InputMessage::user("hi")]);
    let req = stream.start_iteration(&settings, &Vec::new()).unwrap();
    assert!(req.stream);
    let chunk1 = StreamEvent {
        inference_id: 1,
        episode_id: 2,
        variant_name: "v".to_string(),
        content: vec![
            StreamContentBlock::Text { id: "0".to_string(), text: "Hel".to_string() },
            StreamContentBlock::ToolCall { id: "c1".to_string(), raw_name: "search".to_string(), raw_arguments: "{\"q\":".to_string() },
        ],
        usage: None,
    };
    let events = stream.on_chunk(&chunk1);
    assert_eq!(events.len(), 4);
    assert!(matches!(events[0], SseEvent::Start { inference_id: 1, episode_id: 2, thread_id: 99 }));
    assert_eq!(events[1].to_json(), SseEvent::text_delta("Hel").to_json());
    assert_eq!(events[2].to_json(), SseEvent::tool_use_start("c1", "search").to_json());
    assert_eq!(events[3].to_json(), SseEvent::tool_use_delta("c1", "{\"q\":").to_json());
    let chunk2 = StreamEvent {
        inference_id: 1,
        episode_id: 2,
        variant_name: "v".to_string(),
        content: vec![
            StreamContentBlock::Text { id: "0".to_string(), text: "lo".to_string() },
            StreamContentBlock::ToolCall { id: "c1".to_string(), raw_name: "search".to_string(), raw_arguments: "\"rust\"}".to_string() },
        ],
        usage: Some(Usage { input_tokens: 5, output_tokens: 6 }),
    };
    let events = stream.on_chunk(&chunk2);
    assert_eq!(events.len(), 2);
    assert_eq!(stream.block_count, 2);
    let (content, completions) = stream.finish_response();
    assert_eq!(content.len(), 2);
    match &content[0] {
        TzContentBlock::Text { text } => assert_eq!(text, "Hello"),
        other => panic!("unexpected {:?}", other),
    }
    match &content[1] {
        TzContentBlock::ToolCall(tc) => assert_eq!(tc.raw_arguments.as_deref(), Some("{\"q\":\"rust\"}")),
        other => panic!("unexpected {:?}", other),
    }
    assert_eq!(completions.len(), 1);
    assert_eq!(completions[0].to_json(), SseEvent::tool_use_complete("c1", "{\"q\":\"rust\"}").to_json());
    match stream.after_response(&content) {
        StreamStep::ExecuteTools { calls, .. } => {
            assert_eq!(calls.len(), 1);
            assert_eq!(calls[0].name, "search");
        },
        other => panic!("unexpected {:?}", other),
    }
    let (message, events) = stream.record_tool_results(&vec![ToolResult::error("c1", "search", "offline")]);
    assert_eq!(events.len(), 1);
    assert_eq!(events[0].to_json(), SseEvent::tool_execution_complete("c1", "offline", true).to_json());
    assert_eq!(message.thread_id, 99);
    let last = stream.messages.last().unwrap();
    assert!(matches!(last.role, MessageRole::User));
    assert!(matches!(last.content[0], InputContentBlock::ToolResult { .. }));
}

#[test]
fn titles_count_characters_not_bytes() {
    let accented = "é".repeat(30);
    assert_eq!(generate_title(&MessageContent::text(&accented)), Some(accented.clone()));
    let mixed = format!("a{}", "é".repeat(30));
    assert_eq!(generate_title(&MessageContent::text(&mixed)), Some(mixed.clone()));
    let long = "é".repeat(60);
    assert_eq!(generate_title(&MessageContent::text(&long)), Some(format!("{}...", "é".repeat(50))));
    let spaced = format!("{} {}", "é".repeat(40), "é".repeat(40));
    assert_eq!(generate_title(&MessageContent::text(&spaced)), Some(format!("{}...", "é".repeat(40))));
    let ideographic = format!("{}\u{3000}{}", "x".repeat(45), "y".repeat(10));
    assert_eq!(generate_title(&MessageContent::text(&ideographic)), Some(format!("{}...", "x".repeat(45))));
}

#[test]
fn raw_arguments_are_read_as_json() {
    let call = ToolCallBlock {
        id: "c".to_string(),
        name: None,
        arguments: None,
        raw_name: Some("lookup".to_string()),
        raw_arguments: Some("{ \"a\" : [1, 2] }".to_string()),
    };
    assert_eq!(call.tool_name().map(|s| s.as_str()), Some("lookup"));
    assert_eq!(call.parse_arguments().unwrap(), "{\"a\":[1,2]}");
    assert_eq!(call.arguments_string(), "{ \"a\" : [1, 2] }");
    let broken = ToolCallBlock { raw_arguments: Some("{".to_string()), ..call };
    assert!(broken.parse_arguments().is_err());
    let empty = ToolCallBlock { id: "d".to_string(), name: None, arguments: None, raw_name: None, raw_arguments: None };
    assert_eq!(empty.parse_arguments().unwrap(), "null");
    assert_eq!(empty.arguments_string(), "{}");
}

#[test]
fn requests_and_content_from_text() {
    let request = balungpisah_adk::agent::ChatRequest::from("hello".to_string());
    assert!(request.thread_id.is_none());
    assert!(request.user_message_id.is_none());
    assert_eq!(request.content.as_string(), "hello");
    let with_ids = request.thread_id(3).user_message_id(4).agent_slug("bot");
    assert_eq!(with_ids.thread_id, Some(3));
    assert_eq!(with_ids.user_message_id, Some(4));
    assert_eq!(with_ids.agent_slug.as_deref(), Some("bot"));
    match MessageContent::from(vec![ContentBlock::text("a"), ContentBlock::text("b")]) {
        MessageContent::Blocks(blocks) => assert_eq!(blocks.len(), 2),
        other => panic!("unexpected {:?}", other),
    }
    assert_eq!(MessageContent::from("t".to_string()).as_string(), "t");
}
