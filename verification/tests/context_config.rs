use balungpisah_adk::context::{ContextConfig, ToolsContextConfig};

#[test]
fn test_default_config() {
    let config = ContextConfig::default();
    assert_eq!(config.max_messages, 20);
    assert_eq!(config.tools.retain_last, 5);
    assert!(config.loop_override.is_none());
}

#[test]
fn test_builder_pattern() {
    let config = ContextConfig::new()
        .max_messages(15)
        .tools(ToolsContextConfig::new().retain_last(3).deduplicate(true));

    assert_eq!(config.max_messages, 15);
    assert_eq!(config.tools.retain_last, 3);
    assert!(config.tools.deduplicate);
}

#[test]
fn test_loop_override() {
    let config = ContextConfig::new()
        .max_messages(10)
        .loop_override(ContextConfig::new().max_messages(3));

    assert_eq!(config.max_messages, 10);
    assert_eq!(config.for_loop().max_messages, 3);
}

#[test]
fn test_for_loop_without_override() {
    let config = ContextConfig::new().max_messages(10);

    // Without override, for_loop returns self
    assert_eq!(config.for_loop().max_messages, 10);
}

#[test]
fn test_preset_configs() {
    let minimal = ContextConfig::minimal();
    assert_eq!(minimal.max_messages, 5);

    let standard = ContextConfig::standard();
    assert_eq!(standard.max_messages, 10);
    assert!(standard.loop_override.is_some());

    let large = ContextConfig::large();
    assert_eq!(large.max_messages, 30);
    assert!(large.tools.deduplicate);
}

#[test]
fn tools_context_defaults() {
    let tools = ToolsContextConfig::default();
    assert_eq!(tools.retain_last, 5);
    assert_eq!(tools.limit_per_message, None);
    assert!(!tools.deduplicate);
    let limited = ToolsContextConfig::new().limit_per_message(200);
    assert_eq!(limited.limit_per_message, Some(200));
}

#[test]
fn config_filter_uses_max_messages() {
    let filter = ContextConfig::new().max_messages(7).filter();
    assert_eq!(filter.max_messages, Some(7));
}
