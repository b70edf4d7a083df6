//! Request, response and client types for the TensorZero inference gateway.

pub mod client;
pub mod error;
pub mod request;
pub mod response;
