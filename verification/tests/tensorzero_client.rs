use balungpisah_adk::tensorzero::client::TensorZeroClient;
use balungpisah_adk::tensorzero::error::TensorZeroError;

#[test]
fn test_client_creation() {
    let client = TensorZeroClient::new("http://localhost:3000");
    assert!(client.is_ok());
}

#[test]
fn test_client_invalid_url() {
    let client = TensorZeroClient::new("invalid-url");
    assert!(client.is_err());
}

#[test]
fn test_client_base_url_normalization() {
    let client = TensorZeroClient::new("http://localhost:3000/").unwrap();
    assert_eq!(client.base_url(), "http://localhost:3000");
}

#[test]
fn invalid_url_error_carries_the_url() {
    match TensorZeroClient::new("ftp://host") {
        Err(TensorZeroError::InvalidUrl { url }) => assert_eq!(url, "ftp://host"),
        _ => panic!("expected an invalid URL error"),
    }
}

#[test]
fn every_trailing_slash_is_removed() {
    let client = TensorZeroClient::new("https://gw.example///").unwrap();
    assert_eq!(client.base_url(), "https://gw.example");
    assert_eq!(client.inference_url(), "https://gw.example/inference");
    assert_eq!(client.health_url(), "https://gw.example/health");
}

#[test]
fn with_client_checks_the_url_too() {
    let http = reqwest::Client::new();
    assert!(TensorZeroClient::with_client("localhost", http.clone()).is_err());
    let client = TensorZeroClient::with_client("http://h/", http).unwrap();
    assert_eq!(client.base_url(), "http://h");
}
