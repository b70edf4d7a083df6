//! Agent development kit for TensorZero-backed conversational agents.

pub mod context;
pub mod error;
pub mod ids;
pub mod json;
pub mod minio;
pub mod models;
pub mod tensorzero;
pub mod text;
pub mod tools;
pub mod storage;
pub mod stream;
pub mod agent;
