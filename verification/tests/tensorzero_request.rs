use balungpisah_adk::tensorzero::error::TensorZeroError;
use balungpisah_adk::tensorzero::request::{InferenceRequestBuilder, InputMessage, JsonInferenceRequestBuilder};

#[test]
fn request_without_function_or_model_is_refused() {
    let r = InferenceRequestBuilder::new().message(InputMessage::user("Hello!")).build();
    match r {
        Err(TensorZeroError::InvalidRequest { message }) => assert_eq!(message, "function_name is required"),
        _ => panic!("expected an invalid request error"),
    }
}

#[test]
fn request_with_function_is_built() {
    let r = InferenceRequestBuilder::new().function_name("my_function").message(InputMessage::user("Hello!")).build();
    let req = match r {
        Ok(req) => req,
        Err(_) => panic!("expected a request"),
    };
    assert_eq!(req.function_name, Some("my_function".to_string()));
    assert_eq!(req.input.messages.len(), 1);
    assert!(!req.stream);
    assert!(req.episode_id.is_none());
}

#[test]
fn json_request_without_function_is_refused() {
    let r = JsonInferenceRequestBuilder::new().message(InputMessage::user("Hello!")).build();
    match r {
        Err(TensorZeroError::InvalidRequest { message }) => assert_eq!(message, "function_name is required"),
        _ => panic!("expected an invalid request error"),
    }
}
