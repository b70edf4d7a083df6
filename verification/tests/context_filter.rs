use balungpisah_adk::context::ContextFilter;

use balungpisah_adk::models::{ContentBlock, Message, MessageContent, Role};

fn make_message(role: Role, text: &str) -> Message {
    Message::new(7u128, role, MessageContent::text(text))
}

#[test]
fn test_max_messages_filter() {
    let filter = ContextFilter::new().max_messages(2);

    let messages = vec![
        make_message(Role::User, "First"),
        make_message(Role::Assistant, "Response 1"),
        make_message(Role::User, "Second"),
        make_message(Role::Assistant, "Response 2"),
    ];

    let filtered = filter.filter_messages(messages);
    assert_eq!(filtered.len(), 2);
    assert_eq!(filtered[0].text(), "Second");
}

#[test]
fn test_empty_messages() {
    let filter = ContextFilter::new();
    let filtered = filter.filter_messages(vec![]);
    assert!(filtered.is_empty());
}

#[test]
fn count_limit_drops_leading_assistant_messages() {
    let filter = ContextFilter::new().max_messages(3);
    let messages = vec![
        make_message(Role::User, "a"),
        make_message(Role::Assistant, "b"),
        make_message(Role::User, "c"),
        make_message(Role::Assistant, "d"),
    ];
    let filtered = filter.filter_messages(messages);
    // The last three start with an assistant message, which is dropped.
    assert_eq!(filtered.len(), 2);
    assert_eq!(filtered[0].text(), "c");
    assert_eq!(filtered[1].text(), "d");
}

#[test]
fn character_limit_keeps_recent_messages() {
    let filter = ContextFilter::new().max_characters(10);
    let messages = vec![
        make_message(Role::User, "0123456789"),
        make_message(Role::Assistant, "abcdef"),
        make_message(Role::User, "xyz"),
        make_message(Role::Assistant, "uvw"),
    ];
    let filtered = filter.filter_messages(messages);
    // From the end: 3 + 3 = 6 fits, 6 more would make 12 > 10: cut before "abcdef".
    assert_eq!(filtered.len(), 2);
    assert_eq!(filtered[0].text(), "xyz");
    assert_eq!(filtered[1].text(), "uvw");
}

#[test]
fn character_limit_bounds_the_whole_context() {
    let filter = ContextFilter::new().max_characters(5).preserve_tool_pairs(false);
    let messages = vec![make_message(Role::User, "aaaaaaaaaa"), make_message(Role::User, "b")];
    let filtered = filter.filter_messages(messages);
    assert_eq!(filtered.len(), 1);
    assert_eq!(filtered[0].text(), "b");
}

#[test]
fn character_limit_can_drop_every_message() {
    let filter = ContextFilter::new().max_characters(4);
    let messages = vec![make_message(Role::User, "a long first message"), make_message(Role::Assistant, "ok")];
    let filtered = filter.filter_messages(messages);
    // "ok" fits, but a kept history does not start with an assistant message.
    assert!(filtered.is_empty());
}

#[test]
fn character_limit_counts_characters_not_bytes() {
    let filter = ContextFilter::new().max_characters(5);
    let messages = vec![make_message(Role::User, "\u{e9}\u{e9}\u{e9}"), make_message(Role::User, "b")];
    let filtered = filter.filter_messages(messages);
    assert_eq!(filtered.len(), 2);
    assert_eq!(filtered[0].text(), "\u{e9}\u{e9}\u{e9}");
}

#[test]
fn orphan_tool_results_and_unanswered_calls_are_removed() {
    let filter = ContextFilter::new();
    let thread = 7u128;
    let orphan = Message::new(
        thread,
        Role::User,
        MessageContent::Blocks(vec![ContentBlock::tool_result("c0", "t", "stale")]),
    );
    let question = make_message(Role::User, "question");
    let call = Message::new(
        thread,
        Role::Assistant,
        MessageContent::Blocks(vec![ContentBlock::tool_use("c1", "t", "{}")]),
    );
    let result = Message::new(
        thread,
        Role::User,
        MessageContent::Blocks(vec![ContentBlock::tool_result("c1", "t", "ok")]),
    );
    let dangling = Message::new(
        thread,
        Role::Assistant,
        MessageContent::Blocks(vec![ContentBlock::tool_use("c2", "t", "{}")]),
    );
    let filtered = filter.filter_messages(vec![orphan, question, call, result, dangling]);
    assert_eq!(filtered.len(), 3);
    assert_eq!(filtered[0].text(), "question");
    assert!(filtered[1].has_tool_uses());
    assert!(filtered[2].content.has_tool_results());
}

#[test]
fn tool_pairs_can_be_left_alone() {
    let filter = ContextFilter::new().preserve_tool_pairs(false);
    let orphan = Message::new(
        7u128,
        Role::User,
        MessageContent::Blocks(vec![ContentBlock::tool_result("c0", "t", "stale")]),
    );
    let filtered = filter.filter_messages(vec![orphan]);
    assert_eq!(filtered.len(), 1);
}

#[test]
fn tool_pairs_keep_plain_user_messages() {
    let filter = ContextFilter::new();
    let orphan = |id: &str| {
        Message::new(7u128, Role::User, MessageContent::Blocks(vec![ContentBlock::tool_result(id, "t", "stale")]))
    };
    let messages = vec![orphan("c0"), make_message(Role::User, "first"), orphan("c1"), make_message(Role::User, "second")];
    let filtered = filter.filter_messages(messages);
    assert_eq!(filtered.len(), 2);
    assert_eq!(filtered[0].text(), "first");
    assert_eq!(filtered[1].text(), "second");
}
