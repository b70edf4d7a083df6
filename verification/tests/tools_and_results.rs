use balungpisah_adk::tools::{ToolContext, ToolContextBuilder, ToolDefinition, ToolRegistry, ToolResult};
use balungpisah_adk::models::Thread;
use std::sync::Arc;

#[test]
fn success_and_error_results() {
    let ok = ToolResult::success("c1", "search", "found");
    assert!(ok.is_success());
    assert_eq!(ok.content, "found");
    assert!(ok.data.is_none());
    let err = ToolResult::error("c2", "search", "boom");
    assert!(!err.is_success());
    assert!(err.is_error);
    assert_eq!(err.content, "boom");
    let with_data = ok.with_data("{\"n\":1}".to_string());
    assert_eq!(with_data.data.as_deref(), Some("{\"n\":1}"));
}

#[test]
fn success_json_pretty_prints_data() {
    let r = ToolResult::success_json("c1", "calc", "{\"a\":1}");
    assert_eq!(r.content, "{\n  \"a\": 1\n}");
    assert_eq!(r.data.as_deref(), Some("{\"a\":1}"));
    let bad = ToolResult::success_json("c1", "calc", "not json");
    assert_eq!(bad.content, "not json");
}

#[test]
fn default_identity_fills_only_empty_fields() {
    let r = ToolResult::success("", "", "x").with_default_identity("call_9", "weather");
    assert_eq!(r.tool_call_id, "call_9");
    assert_eq!(r.tool_name, "weather");
    let kept = ToolResult::success("mine", "tool", "x").with_default_identity("call_9", "weather");
    assert_eq!(kept.tool_call_id, "mine");
    assert_eq!(kept.tool_name, "tool");
}

#[test]
fn schema_of_built_tool() {
    let def = ToolDefinition::builder("get_weather")
        .description("Weather by city")
        .string_param("city", "City name")
        .optional_integer_param("days", "Days ahead")
        .enum_param("unit", "Unit", &["c", "f"])
        .optional_array_param("tags", "Tags", "string")
        .build();
    assert_eq!(def.name, "get_weather");
    assert_eq!(def.description, "Weather by city");
    assert_eq!(
        def.parameters,
        "{\"properties\":{\"city\":{\"description\":\"City name\",\"type\":\"string\"},\"days\":{\"description\":\"Days ahead\",\"type\":\"integer\"},\"unit\":{\"description\":\"Unit\",\"enum\":[\"c\",\"f\"],\"type\":\"string\"},\"tags\":{\"description\":\"Tags\",\"items\":{\"type\":\"string\"},\"type\":\"array\"}},\"required\":[\"city\",\"unit\"],\"type\":\"object\"}"
    );
    let parsed: serde_json::Value = serde_json::from_str(&def.parameters).unwrap();
    assert_eq!(parsed["required"][0], "city");
    assert_eq!(parsed["required"][1], "unit");
}

#[test]
fn later_parameter_with_same_name_wins() {
    let def = ToolDefinition::builder("t")
        .string_param("x", "first")
        .optional_boolean_param("x", "second")
        .custom_param("raw", "{\"type\":\"null\"}", false)
        .build();
    assert_eq!(def.description, "");
    assert_eq!(
        def.parameters,
        "{\"properties\":{\"x\":{\"description\":\"second\",\"type\":\"boolean\"},\"raw\":{\"type\":\"null\"}},\"required\":[\"x\"],\"type\":\"object\"}"
    );
}

#[test]
fn description_with_quotes_is_escaped() {
    let def = ToolDefinition::builder("t").number_param("n", "a \"number\"\n").build();
    assert_eq!(
        def.parameters,
        "{\"properties\":{\"n\":{\"description\":\"a \\\"number\\\"\\n\",\"type\":\"number\"}},\"required\":[\"n\"],\"type\":\"object\"}"
    );
}

#[test]
fn tensorzero_definition_copies_fields() {
    let def = ToolDefinition::new("t", "d", "{}");
    let tz = def.to_tensorzero();
    assert_eq!(tz.name, "t");
    assert_eq!(tz.description, "d");
    assert_eq!(tz.parameters, "{}");
}

#[test]
fn registry_finds_first_registered_tool() {
    let mut registry: ToolRegistry<u32> = ToolRegistry::new();
    assert!(registry.is_empty());
    registry.register(ToolDefinition::new("a", "first a", "{}"), 1);
    registry.register(ToolDefinition::new("b", "b", "{}"), 2);
    registry.register(ToolDefinition::new("a", "second a", "{}"), 3);
    assert_eq!(registry.len(), 3);
    assert_eq!(registry.get("a"), Some(&1));
    assert_eq!(registry.get("b"), Some(&2));
    assert_eq!(registry.get("c"), None);
    assert!(registry.has_tool("b"));
    assert!(!registry.has_tool("c"));
    let names: Vec<&String> = registry.names();
    assert_eq!(names, vec!["a", "b", "a"]);
    let defs = registry.tensorzero_definitions();
    assert_eq!(defs.len(), 3);
    assert_eq!(defs[2].description, "second a");
}

#[test]
fn tool_context_reads_back_what_was_written() {
    let thread = Arc::new(Thread::with_id(42, "user-1"));
    let ctx = ToolContext::new("c1", "t", thread)
        .with_data("k", "v1".to_string())
        .with_data("other", "x".to_string())
        .with_data("k", "v2".to_string());
    assert_eq!(ctx.get_data("k").map(|s| s.as_str()), Some("v2"));
    assert_eq!(ctx.get_data("other").map(|s| s.as_str()), Some("x"));
    assert_eq!(ctx.get_data("missing"), None);
    assert_eq!(ctx.thread_id(), 42);
    assert_eq!(ctx.external_id(), "user-1");
}

#[test]
fn tool_context_builder_needs_a_thread() {
    assert!(ToolContextBuilder::new("c", "t").data("a", "b".to_string()).build().is_none());
    let thread = Arc::new(Thread::with_id(1, "ext"));
    let ctx = ToolContextBuilder::new("c", "t").thread(thread).data("a", "b".to_string()).build().unwrap();
    assert_eq!(ctx.get_data("a").map(|s| s.as_str()), Some("b"));
    assert_eq!(ctx.tool_call_id, "c");
}
