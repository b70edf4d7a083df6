use balungpisah_adk::error::{AgentError, DatabaseFailure, StorageError, ToolError};
use balungpisah_adk::minio::error::MinioError;
use balungpisah_adk::storage::postgres::storage_error_from_sqlx;
use balungpisah_adk::tensorzero::client::{check_status, is_chunk_data};
use balungpisah_adk::tensorzero::error::TensorZeroError;

#[test]
fn storage_error_texts() {
    let cases = vec![
        (StorageError::Connection { message: "m".to_string() }, "connection error: m"),
        (StorageError::Query { message: "m".to_string() }, "query error: m"),
        (StorageError::NotFound { entity: "thread".to_string(), id: "7".to_string() }, "not found: thread with id 7"),
        (StorageError::Serialization { message: "m".to_string() }, "serialization error: m"),
        (StorageError::Migration { message: "m".to_string() }, "migration error: m"),
        (StorageError::Transaction { message: "m".to_string() }, "transaction error: m"),
    ];
    for (e, text) in cases {
        assert_eq!(e.message_text(), text);
    }
}

#[test]
fn tool_error_texts() {
    assert_eq!(ToolError::ExecutionFailed { message: "x".to_string() }.message_text(), "execution failed: x");
    assert_eq!(ToolError::InvalidArguments { message: "x".to_string() }.message_text(), "invalid arguments: x");
    assert_eq!(ToolError::Timeout { timeout_secs: 30 }.message_text(), "tool execution timed out after 30 seconds");
    assert_eq!(ToolError::PermissionDenied { message: "x".to_string() }.message_text(), "permission denied: x");
    assert_eq!(ToolError::Internal { message: "x".to_string() }.message_text(), "internal error: x");
}

#[test]
fn agent_error_texts() {
    assert_eq!(
        AgentError::Storage(StorageError::Query { message: "q".to_string() }).message_text(),
        "storage error: query error: q"
    );
    assert_eq!(
        AgentError::Tool(ToolError::Timeout { timeout_secs: 0 }).message_text(),
        "tool error: tool execution timed out after 0 seconds"
    );
    assert_eq!(AgentError::ToolNotFound { tool_name: "x".to_string() }.message_text(), "tool 'x' not found");
    assert_eq!(AgentError::MaxIterationsExceeded { max: 10 }.message_text(), "max iterations (10) exceeded");
    assert_eq!(
        AgentError::Inference { message: "m".to_string(), status_code: Some(500) }.message_text(),
        "inference failed: m"
    );
    assert_eq!(AgentError::Configuration { message: "m".to_string() }.message_text(), "invalid configuration: m");
    assert_eq!(AgentError::Serialization { message: "m".to_string() }.message_text(), "serialization error: m");
    assert_eq!(
        AgentError::ThreadNotFound { thread_id: 0xff }.message_text(),
        "thread not found: 00000000-0000-0000-0000-0000000000ff"
    );
    assert_eq!(AgentError::Stream { message: "m".to_string() }.message_text(), "stream error: m");
}

#[test]
fn gateway_errors_become_inference_errors() {
    match AgentError::from_tensorzero(TensorZeroError::ServerError { status_code: 503, message: "down".to_string() }) {
        AgentError::Inference { message, status_code } => {
            assert_eq!(message, "down");
            assert_eq!(status_code, Some(503));
        },
        other => panic!("unexpected {:?}", other),
    }
    match AgentError::from_tensorzero(TensorZeroError::InvalidUrl { url: "u".to_string() }) {
        AgentError::Inference { message, status_code } => {
            assert_eq!(message, "invalid URL: u");
            assert_eq!(status_code, None);
        },
        other => panic!("unexpected {:?}", other),
    }
}

#[test]
fn tensorzero_error_texts() {
    assert_eq!(
        TensorZeroError::ServerError { status_code: 404, message: "nope".to_string() }.message_text(),
        "server error (status 404): nope"
    );
    assert_eq!(TensorZeroError::StreamError { message: "s".to_string() }.message_text(), "streaming error: s");
    assert_eq!(TensorZeroError::InvalidRequest { message: "r".to_string() }.message_text(), "invalid request: r");
    assert_eq!(TensorZeroError::ClientBuild { message: "c".to_string() }.message_text(), "failed to build HTTP client: c");
}

#[test]
fn parse_errors_keep_their_source() {
    let json_err = serde_json::from_str::<serde_json::Value>("{").unwrap_err();
    let text = json_err.to_string();
    match TensorZeroError::from_json(json_err) {
        TensorZeroError::ParseError { message, source } => {
            assert_eq!(message, text);
            assert!(source.is_some());
        },
        other => panic!("unexpected {:?}", other),
    }
}

#[test]
fn status_classification() {
    assert_eq!(check_status(200, "body".to_string()).unwrap(), "body");
    assert_eq!(check_status(299, "b".to_string()).unwrap(), "b");
    match check_status(500, "oops".to_string()) {
        Err(TensorZeroError::ServerError { status_code, message }) => {
            assert_eq!(status_code, 500);
            assert_eq!(message, "oops");
        },
        other => panic!("unexpected {:?}", other),
    }
    assert!(check_status(199, String::new()).is_err());
    assert!(check_status(300, String::new()).is_err());
}

#[test]
fn chunk_data_detection() {
    assert!(is_chunk_data("{\"a\":1}"));
    assert!(!is_chunk_data(""));
    assert!(!is_chunk_data("[DONE]"));
    assert!(is_chunk_data("[DONE] "));
}

#[test]
fn database_failures_map_to_storage_errors() {
    match StorageError::from_failure(DatabaseFailure::RowNotFound) {
        StorageError::NotFound { entity, id } => {
            assert_eq!(entity, "record");
            assert_eq!(id, "unknown");
        },
        other => panic!("unexpected {:?}", other),
    }
    assert!(matches!(
        StorageError::from_failure(DatabaseFailure::Configuration { message: "c".to_string() }),
        StorageError::Connection { .. }
    ));
    assert!(matches!(
        StorageError::from_failure(DatabaseFailure::Other { message: "o".to_string() }),
        StorageError::Query { .. }
    ));
}

#[test]
fn sqlx_errors_map_to_storage_errors() {
    assert!(matches!(storage_error_from_sqlx(&sqlx::Error::RowNotFound), StorageError::NotFound { .. }));
    match storage_error_from_sqlx(&sqlx::Error::PoolTimedOut) {
        StorageError::Query { message } => assert_eq!(message, sqlx::Error::PoolTimedOut.to_string()),
        other => panic!("unexpected {:?}", other),
    }
    let config = sqlx::Error::Configuration("bad url".into());
    match storage_error_from_sqlx(&config) {
        StorageError::Connection { message } => assert_eq!(message, "bad url"),
        other => panic!("unexpected {:?}", other),
    }
}

#[test]
fn minio_error_texts() {
    let m = || "m".to_string();
    assert_eq!(MinioError::Initialization { message: m() }.message_text(), "Failed to initialize S3 client: m");
    assert_eq!(MinioError::Upload { message: m() }.message_text(), "Failed to upload file: m");
    assert_eq!(MinioError::Download { message: m() }.message_text(), "Failed to download file: m");
    assert_eq!(MinioError::Delete { message: m() }.message_text(), "Failed to delete file: m");
    assert_eq!(MinioError::PresignedUrl { message: m() }.message_text(), "Failed to generate presigned URL: m");
    assert_eq!(MinioError::BucketCreation { message: m() }.message_text(), "Failed to create bucket: m");
    assert_eq!(MinioError::InvalidConfig { message: m() }.message_text(), "Invalid configuration: m");
}
