use balungpisah_adk::agent::ModelSpec;

#[test]
fn test_model_spec() {
    let func = ModelSpec::Function("chat".to_string());
    assert!(func.is_function());
    assert!(!func.is_model());
    assert_eq!(func.as_function(), Some("chat"));
    assert_eq!(func.as_model(), None);

    let model = ModelSpec::Model("gpt-4o".to_string());
    assert!(!model.is_function());
    assert!(model.is_model());
    assert_eq!(model.as_function(), None);
    assert_eq!(model.as_model(), Some("gpt-4o"));
}
