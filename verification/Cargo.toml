[package]
name = "balungpisah_adk"
version = "0.1.0"
edition = "2021"
publish = false

[dependencies]
serde = { version = "=1.0.229", features = ["derive"] }
serde_json = "=1.0.154"
sha2 = "=0.10.9"
base64 = "=0.22.1"
uuid = { version = "=1.29.0", features = ["v4", "v7", "serde"] }
chrono = { version = "=0.4.45", features = ["serde"] }
reqwest = { version = "=0.12.28", default-features = false, features = ["json", "stream", "rustls-tls"] }
tokio = { version = "=1.54.1", features = ["rt-multi-thread", "macros", "sync"] }
futures = "=0.3.34"
eventsource-stream = "=0.2.3"
async-trait = "=0.1.92"
thiserror = "=1.0.69"
tracing = "=0.1.44"
sqlx = { version = "=0.8.6", default-features = false, features = ["postgres", "runtime-tokio", "uuid", "chrono", "json", "migrate"] }
rust-s3 = { version = "=0.35.1", default-features = false, features = ["tokio-rustls-tls", "fail-on-err"] }
