use balungpisah_adk::minio::config::{minio_config_from_vars, MinioConfig};
use balungpisah_adk::minio::error::MinioError;
use balungpisah_adk::minio::upload::{calculate_checksum, decode_base64, generate_key, hex_lower, prepare_upload};
use balungpisah_adk::models::{FileMetadata, Message, MessageContent, Role};
use balungpisah_adk::storage::postgres::{chronological, external_id_pattern, parse_role, PostgresConfig};
use std::time::Duration;

#[test]
fn minio_config_defaults_and_setters() {
    let c = MinioConfig::new("http://localhost:9000", "ak", "sk", "files");
    assert_eq!(c.endpoint, "http://localhost:9000");
    assert_eq!(c.bucket, "files");
    assert_eq!(c.region, "us-east-1");
    assert!(c.path_style);
    assert_eq!(c.expiry_secs(), 3600);
    assert_eq!(c.presigned_url_expiry, Duration::from_secs(3600));
    let c = c.region("eu-west-1").path_style(false).presigned_url_expiry(Duration::from_secs(60));
    assert_eq!(c.region, "eu-west-1");
    assert!(!c.path_style);
    assert_eq!(c.expiry_secs(), 60);
    assert_eq!(c.presign_expiry_secs(), 60);
    let long = c.clone().presigned_url_expiry(Duration::from_secs((1u64 << 32) + 5));
    assert_eq!(long.presign_expiry_secs(), 5);
    assert_eq!(c.clone().access_key, "ak");
}

#[test]
fn sha256_checksum_in_lowercase_hex() {
    assert_eq!(calculate_checksum(b"abc"), "ba7816bf8f01cfea414140de5dae2223b00361a396177a9cb410ff61f20015ad");
    assert_eq!(calculate_checksum(b""), "e3b0c44298fc1c149afbf4c8996fb92427ae41e4649b934ca495991b7852b855");
    assert_eq!(hex_lower(&[0x00, 0x0f, 0xa0, 0xff]), "000fa0ff");
}

#[test]
fn upload_result_records_key_checksum_and_size() {
    let r = prepare_upload("t/f/a.txt", b"abc");
    assert_eq!(r.key, "t/f/a.txt");
    assert_eq!(r.checksum, calculate_checksum(b"abc"));
    assert_eq!(r.size_bytes, 3);
}

#[test]
fn storage_keys_join_ids_and_name() {
    assert_eq!(
        generate_key(1, 0xabc, "photo.jpg"),
        "00000000-0000-0000-0000-000000000001/00000000-0000-0000-0000-000000000abc/photo.jpg"
    );
}

#[test]
fn base64_data_is_decoded() {
    assert_eq!(decode_base64("aGVsbG8=").unwrap(), b"hello".to_vec());
    assert_eq!(decode_base64("").unwrap(), Vec::<u8>::new());
    match decode_base64("not base64!") {
        Err(MinioError::Upload { message }) => assert!(message.starts_with("Invalid base64 data: ")),
        other => panic!("unexpected {:?}", other),
    }
}

#[test]
fn postgres_config_defaults() {
    let c = PostgresConfig::new("postgres://db/x");
    assert_eq!(c.url, "postgres://db/x");
    assert_eq!(c.max_connections, 10);
    assert_eq!(c.min_connections, 1);
    let c = c.max_connections(20).min_connections(2);
    assert_eq!((c.max_connections, c.min_connections), (20, 2));
    let d = PostgresConfig::default();
    assert_eq!(d.url, "postgres://localhost/agents");
}

#[test]
fn stored_roles_parse_back() {
    assert_eq!(parse_role("user"), Role::User);
    assert_eq!(parse_role("assistant"), Role::Assistant);
    assert_eq!(parse_role("system"), Role::User);
    assert_eq!(parse_role(Role::Assistant.as_str()), Role::Assistant);
    assert_eq!(parse_role(Role::User.as_str()), Role::User);
}

#[test]
fn prefix_pattern_and_order() {
    assert_eq!(external_id_pattern("user-1"), "user-1%");
    assert_eq!(external_id_pattern(""), "%");
    assert_eq!(external_id_pattern("a_%\\b"), "a\\_\\%\\\\b%");
    let newest_first = vec![
        Message::new(1, Role::Assistant, MessageContent::text("3")),
        Message::new(1, Role::User, MessageContent::text("2")),
        Message::new(1, Role::User, MessageContent::text("1")),
    ];
    let ordered = chronological(newest_first);
    let texts: Vec<String> = ordered.iter().map(|m| m.text()).collect();
    assert_eq!(texts, vec!["1", "2", "3"]);
}

#[test]
fn file_metadata_urls_and_paths() {
    let f = FileMetadata::new(9, "a.png", "image/png", 10, "sum", "bucket", "t/f/a.png");
    assert!(f.is_image());
    assert_eq!(f.storage_path(), "bucket/t/f/a.png");
    assert!(!f.is_url_valid_at(0));
    assert!(!f.is_url_valid());
    let f = f.with_presigned_url("https://x".to_string(), 100).with_message_id(5);
    assert!(f.is_url_valid_at(99));
    assert!(!f.is_url_valid_at(100));
    assert_eq!(f.message_id, Some(5));
    let doc = FileMetadata::new(9, "a.pdf", "application/pdf", 10, "sum", "b", "k");
    assert!(!doc.is_image());
}

fn some(s: &str) -> Option<String> {
    Some(s.to_string())
}

#[test]
fn minio_config_from_settings_with_fallbacks() {
    let c = minio_config_from_vars(
        None,
        some("http://s3:9000"),
        some("minio-ak"),
        some("aws-ak"),
        None,
        some("aws-sk"),
        some("files"),
        some("other"),
        None,
        None,
    )
    .unwrap();
    assert_eq!(c.endpoint, "http://s3:9000");
    assert_eq!(c.access_key, "minio-ak");
    assert_eq!(c.secret_key, "aws-sk");
    assert_eq!(c.bucket, "files");
    assert_eq!(c.region, "us-east-1");
    assert!(c.path_style);
    assert_eq!(c.expiry_secs(), 3600);
    assert_eq!(c.presigned_url_expiry, Duration::from_secs(3600));

    let r = minio_config_from_vars(
        some("e"), None, some("a"), None, some("s"), None, some("b"), None, None, some("eu-west-1"),
    )
    .unwrap();
    assert_eq!(r.region, "eu-west-1");
}

#[test]
fn minio_config_needs_every_required_setting() {
    assert!(minio_config_from_vars(None, None, some("a"), None, some("s"), None, some("b"), None, None, None).is_none());
    assert!(minio_config_from_vars(some("e"), None, some("a"), None, some("s"), None, None, None, some("r"), None).is_none());
    assert!(minio_config_from_vars(some("e"), None, None, None, some("s"), None, some("b"), None, None, None).is_none());
}
