use balungpisah_adk::stream::SseEvent;

#[test]
fn event_json_texts() {
    assert_eq!(SseEvent::text_delta("hi \"x\"").to_json(), "{\"type\":\"text_delta\",\"text\":\"hi \\\"x\\\"\"}");
    assert_eq!(
        SseEvent::tool_use_start("c1", "search").to_json(),
        "{\"type\":\"tool_use_start\",\"id\":\"c1\",\"name\":\"search\"}"
    );
    assert_eq!(
        SseEvent::tool_execution_complete("c1", "ok", true).to_json(),
        "{\"type\":\"tool_execution_complete\",\"id\":\"c1\",\"result\":\"ok\",\"is_error\":true}"
    );
    assert_eq!(SseEvent::error("bad").to_json(), "{\"type\":\"error\",\"message\":\"bad\",\"code\":null}");
    assert_eq!(
        SseEvent::error_with_code("bad", "E1").to_json(),
        "{\"type\":\"error\",\"message\":\"bad\",\"code\":\"E1\"}"
    );
    assert_eq!(SseEvent::done(None, 3).to_json(), "{\"type\":\"done\",\"text\":null,\"iterations\":3}");
    assert_eq!(
        SseEvent::done(Some("fin".to_string()), 12).to_json(),
        "{\"type\":\"done\",\"text\":\"fin\",\"iterations\":12}"
    );
}

#[test]
fn start_event_uses_hyphenated_uuids() {
    let json = SseEvent::start(1, 2, 0x0123456789abcdef0123456789abcdef).to_json();
    assert_eq!(
        json,
        "{\"type\":\"start\",\"inference_id\":\"00000000-0000-0000-0000-000000000001\",\"episode_id\":\"00000000-0000-0000-0000-000000000002\",\"thread_id\":\"01234567-89ab-cdef-0123-456789abcdef\"}"
    );
}

#[test]
fn sse_frame_wraps_json() {
    assert_eq!(SseEvent::text_delta("a").to_sse_data(), "data: {\"type\":\"text_delta\",\"text\":\"a\"}\n\n");
}

#[test]
fn only_done_and_error_are_terminal() {
    assert!(SseEvent::done(None, 1).is_terminal());
    assert!(SseEvent::error("x").is_terminal());
    assert!(!SseEvent::text_delta("x").is_terminal());
    assert!(!SseEvent::tool_use_delta("c", "{}").is_terminal());
}

#[test]
fn control_characters_are_escaped() {
    assert_eq!(SseEvent::text_delta("a\u{1}\tb").to_json(), "{\"type\":\"text_delta\",\"text\":\"a\\u0001\\tb\"}");
}
