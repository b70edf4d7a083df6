//! Object storage for the files of multimodal messages: configuration, errors and the
//! computations around an upload (storage keys, checksums, decoding of inline data).
//! The transfers themselves are made by the application around this library.

pub mod config;
pub mod error;
pub mod upload;
