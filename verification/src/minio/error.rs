//! Object storage errors.

use vstd::prelude::*;
use crate::text::concat;

verus! {

/// Errors of object storage operations.
#[derive(Debug)]
pub enum MinioError {
    /// The client could not be set up.
    Initialization { message: String },
    /// A file could not be uploaded.
    Upload { message: String },
    /// A file could not be downloaded.
    Download { message: String },
    /// A file could not be deleted.
    Delete { message: String },
    /// A presigned URL could not be generated.
    PresignedUrl { message: String },
    /// A bucket could not be created.
    BucketCreation { message: String },
    /// The configuration is invalid.
    InvalidConfig { message: String },
}

/// The message text of an object storage error.
pub open spec fn spec_minio_error_text(e: MinioError) -> Seq<char> {
    match e {
        MinioError::Initialization { message } => "Failed to initialize S3 client: "@ + message@,
        MinioError::Upload { message } => "Failed to upload file: "@ + message@,
        MinioError::Download { message } => "Failed to download file: "@ + message@,
        MinioError::Delete { message } => "Failed to delete file: "@ + message@,
        MinioError::PresignedUrl { message } => "Failed to generate presigned URL: "@ + message@,
        MinioError::BucketCreation { message } => "Failed to create bucket: "@ + message@,
        MinioError::InvalidConfig { message } => "Invalid configuration: "@ + message@,
    }
}

impl MinioError {
    /// The message text of the error.
    pub fn message_text(&self) -> (r: String)
        ensures
            r@ == spec_minio_error_text(*self),
    {
        match self {
            MinioError::Initialization { message } => concat("Failed to initialize S3 client: ", message.as_str()),
            MinioError::Upload { message } => concat("Failed to upload file: ", message.as_str()),
            MinioError::Download { message } => concat("Failed to download file: ", message.as_str()),
            MinioError::Delete { message } => concat("Failed to delete file: ", message.as_str()),
            MinioError::PresignedUrl { message } => concat("Failed to generate presigned URL: ", message.as_str()),
            MinioError::BucketCreation { message } => concat("Failed to create bucket: ", message.as_str()),
            MinioError::InvalidConfig { message } => concat("Invalid configuration: ", message.as_str()),
        }
    }
}

} // verus!
