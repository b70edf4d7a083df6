use balungpisah_adk::context::convert::{
    convert_message_to_input, convert_messages_to_input, is_unified_format, split_unified_message,
};

use balungpisah_adk::models::{ContentBlock, ImageSource, Message, MessageContent, Role};
use balungpisah_adk::tensorzero::request::{InputContentBlock, MessageRole};

#[test]
fn test_convert_text_message() {
    let message = Message::new(7u128, Role::User, MessageContent::text("Hello, world!"));

    let input = convert_message_to_input(&message);

    assert!(matches!(input.role, MessageRole::User));
    assert_eq!(input.content.len(), 1);
}

#[test]
fn test_convert_tool_use_message() {
    let blocks = vec![ContentBlock::tool_use("call_123", "get_weather", r#"{"location":"San Francisco"}"#)];
    let message = Message::new(7u128, Role::Assistant, MessageContent::Blocks(blocks));

    let input = convert_message_to_input(&message);

    assert!(matches!(input.role, MessageRole::Assistant));
    assert_eq!(input.content.len(), 1);
}

#[test]
fn test_convert_tool_result_message() {
    let blocks = vec![ContentBlock::tool_result("call_123", "get_weather", "Sunny, 72°F")];
    let message = Message::new(7u128, Role::User, MessageContent::Blocks(blocks));

    let input = convert_message_to_input(&message);

    assert!(matches!(input.role, MessageRole::User));
    assert_eq!(input.content.len(), 1);
}

#[test]
fn test_is_unified_format_detects_mixed_blocks() {
    // Unified format: has both tool_use and tool_result
    let blocks = vec![
        ContentBlock::tool_use("call_1", "get_weather", r#"{"location":"NYC"}"#),
        ContentBlock::tool_result("call_1", "get_weather", "Sunny"),
        ContentBlock::text("Based on the weather..."),
    ];
    let content = MessageContent::Blocks(blocks);
    assert!(is_unified_format(&content));

    // Legacy format: only tool_use (no tool_result)
    let blocks = vec![ContentBlock::tool_use("call_1", "get_weather", r#"{"location":"NYC"}"#)];
    let content = MessageContent::Blocks(blocks);
    assert!(!is_unified_format(&content));

    // Text only
    let content = MessageContent::Text("Hello".to_string());
    assert!(!is_unified_format(&content));
}

#[test]
fn test_split_unified_message_basic() {
    let thread_id = 7u128;
    let blocks = vec![
        ContentBlock::tool_use("call_1", "get_weather", r#"{"location":"NYC"}"#),
        ContentBlock::tool_result("call_1", "get_weather", "Sunny, 72°F"),
        ContentBlock::text("The weather is nice!"),
    ];
    let message = Message::new(thread_id, Role::Assistant, MessageContent::Blocks(blocks));

    let result = split_unified_message(&message);

    // Should produce: assistant(tool_use), user(tool_result), assistant(text)
    assert_eq!(result.len(), 3);
    assert!(matches!(result[0].role, MessageRole::Assistant));
    assert!(matches!(result[1].role, MessageRole::User));
    assert!(matches!(result[2].role, MessageRole::Assistant));
}

#[test]
fn test_split_unified_message_multiple_iterations() {
    let thread_id = 7u128;
    let blocks = vec![
        // First iteration
        ContentBlock::tool_use("call_1", "search", r#"{"q":"rust"}"#),
        ContentBlock::tool_result("call_1", "search", "Found results..."),
        // Second iteration
        ContentBlock::tool_use("call_2", "read_file", r#"{"path":"foo.rs"}"#),
        ContentBlock::tool_result("call_2", "read_file", "fn main() {}"),
        // Final text
        ContentBlock::text("Based on my analysis..."),
    ];
    let message = Message::new(thread_id, Role::Assistant, MessageContent::Blocks(blocks));

    let result = split_unified_message(&message);

    // Should produce alternating assistant/user messages
    assert_eq!(result.len(), 5);
    assert!(matches!(result[0].role, MessageRole::Assistant)); // tool_use 1
    assert!(matches!(result[1].role, MessageRole::User)); // tool_result 1
    assert!(matches!(result[2].role, MessageRole::Assistant)); // tool_use 2
    assert!(matches!(result[3].role, MessageRole::User)); // tool_result 2
    assert!(matches!(result[4].role, MessageRole::Assistant)); // final text
}

#[test]
fn test_backwards_compat_legacy_format() {
    let thread_id = 7u128;

    // Legacy assistant message with only tool_use
    let assistant_blocks = vec![ContentBlock::tool_use("call_1", "get_weather", r#"{"location":"NYC"}"#)];
    let assistant_msg = Message::new(thread_id, Role::Assistant, MessageContent::Blocks(assistant_blocks));

    // Legacy user message with only tool_result
    let user_blocks = vec![ContentBlock::tool_result("call_1", "get_weather", "Sunny")];
    let user_msg = Message::new(thread_id, Role::User, MessageContent::Blocks(user_blocks));

    let messages = vec![assistant_msg, user_msg];
    let result = convert_messages_to_input(&messages);

    // Should convert directly without splitting (backwards compatible)
    assert_eq!(result.len(), 2);
    assert!(matches!(result[0].role, MessageRole::Assistant));
    assert!(matches!(result[1].role, MessageRole::User));
}

#[test]
fn test_convert_messages_handles_mixed_formats() {
    let thread_id = 7u128;

    // User message (simple text)
    let user_msg = Message::new(thread_id, Role::User, MessageContent::text("What's the weather?"));

    // Unified assistant message
    let unified_blocks = vec![
        ContentBlock::tool_use("call_1", "get_weather", r#"{"location":"NYC"}"#),
        ContentBlock::tool_result("call_1", "get_weather", "Sunny"),
        ContentBlock::text("It's sunny in NYC!"),
    ];
    let assistant_msg = Message::new(thread_id, Role::Assistant, MessageContent::Blocks(unified_blocks));

    let messages = vec![user_msg, assistant_msg];
    let result = convert_messages_to_input(&messages);

    // User message + split unified message (3 parts)
    assert_eq!(result.len(), 4);
    assert!(matches!(result[0].role, MessageRole::User)); // Original user
    assert!(matches!(result[1].role, MessageRole::Assistant)); // tool_use
    assert!(matches!(result[2].role, MessageRole::User)); // tool_result
    assert!(matches!(result[3].role, MessageRole::Assistant)); // text
}

#[test]
fn split_keeps_every_block_in_order() {
    let blocks = vec![
        ContentBlock::text("Let me check."),
        ContentBlock::tool_use("call_1", "search", r#"{"q":"rust"}"#),
        ContentBlock::tool_result("call_1", "search", "r1"),
        ContentBlock::tool_result("call_2", "search", "r2"),
        ContentBlock::text("Done."),
    ];
    let message = Message::new(7u128, Role::Assistant, MessageContent::Blocks(blocks));
    let parts = split_unified_message(&message);
    assert_eq!(parts.len(), 3);
    assert_eq!(parts[0].content.len(), 2);
    assert_eq!(parts[1].content.len(), 2);
    assert_eq!(parts[2].content.len(), 1);
    match &parts[1].content[1] {
        InputContentBlock::ToolResult { id, name, result } => {
            assert_eq!(id, "call_2");
            assert_eq!(name, "search");
            assert_eq!(result, "r2");
        },
        other => panic!("unexpected block {:?}", other),
    }
    match &parts[2].content[0] {
        InputContentBlock::Text { text } => assert_eq!(text, "Done."),
        other => panic!("unexpected block {:?}", other),
    }
}

#[test]
fn file_blocks_become_text_references() {
    let blocks = vec![
        ContentBlock::File {
            file_id: Some("f1".to_string()),
            url: Some("https://files/x.png".to_string()),
            mime_type: Some("image/png".to_string()),
            data: None,
        },
        ContentBlock::File {
            file_id: None,
            url: None,
            mime_type: Some("application/pdf".to_string()),
            data: Some("AAAA".to_string()),
        },
        ContentBlock::File { file_id: Some("f3".to_string()), url: None, mime_type: None, data: None },
        ContentBlock::File { file_id: None, url: None, mime_type: None, data: None },
    ];
    let message = Message::new(7u128, Role::User, MessageContent::Blocks(blocks));
    let input = convert_message_to_input(&message);
    let texts: Vec<String> = input
        .content
        .iter()
        .map(|b| match b {
            InputContentBlock::Text { text } => text.clone(),
            other => panic!("unexpected block {:?}", other),
        })
        .collect();
    assert_eq!(
        texts,
        vec![
            "[Image: https://files/x.png]".to_string(),
            "[Attached file: application/pdf]".to_string(),
            "[File reference: f3]".to_string(),
        ]
    );
}

#[test]
fn blocks_that_convert_to_nothing_keep_roles_alternating() {
    let blocks = vec![
        ContentBlock::tool_use("call_1", "search", "{}"),
        ContentBlock::tool_result("call_1", "search", "r1"),
        ContentBlock::Image { source: ImageSource::Url { url: "https://img/x.png".to_string() } },
        ContentBlock::File { file_id: None, url: None, mime_type: None, data: None },
        ContentBlock::tool_result("call_2", "search", "r2"),
    ];
    let message = Message::new(7u128, Role::Assistant, MessageContent::Blocks(blocks));
    let parts = split_unified_message(&message);
    assert_eq!(parts.len(), 2);
    assert!(matches!(parts[0].role, MessageRole::Assistant));
    assert!(matches!(parts[1].role, MessageRole::User));
    assert_eq!(parts[1].content.len(), 2);
}

#[test]
fn message_of_images_only_splits_into_nothing() {
    let blocks = vec![ContentBlock::Image { source: ImageSource::Url { url: "https://img/x.png".to_string() } }];
    let message = Message::new(7u128, Role::Assistant, MessageContent::Blocks(blocks));
    assert!(split_unified_message(&message).is_empty());
}
