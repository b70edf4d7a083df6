//! Metadata of files kept in object storage.

use vstd::prelude::*;
use crate::ids::{new_id, now_micros};
use crate::tensorzero::client::{spec_starts_with, str_starts_with};

verus! {

/// Metadata for a file stored in object storage. Identifiers are 128-bit integers and
/// timestamps microseconds since the Unix epoch.
#[derive(Debug)]
pub struct FileMetadata {
    /// Unique identifier for the file.
    pub id: u128,
    /// Thread this file belongs to.
    pub thread_id: u128,
    /// Message this file is attached to, if any.
    pub message_id: Option<u128>,
    /// Original filename.
    pub filename: String,
    /// MIME type (e.g. `image/jpeg`).
    pub mime_type: String,
    /// File size in bytes.
    pub size_bytes: i64,
    /// SHA-256 checksum of the file content.
    pub checksum: String,
    /// Storage bucket name.
    pub storage_bucket: String,
    /// Storage object key.
    pub storage_key: String,
    /// When the file was uploaded.
    pub created_at: i64,
    /// Cached presigned URL for access.
    pub presigned_url: Option<String>,
    /// When the presigned URL expires.
    pub url_expires_at: Option<i64>,
}

impl FileMetadata {
    /// Create a new file metadata entry with a fresh identifier, stamped with the
    /// current time, attached to no message and without a presigned URL.
    pub fn new(
        thread_id: u128,
        filename: &str,
        mime_type: &str,
        size_bytes: i64,
        checksum: &str,
        storage_bucket: &str,
        storage_key: &str,
    ) -> (r: Self)
        ensures
            r.thread_id == thread_id,
            r.message_id is None,
            r.filename@ == filename@,
            r.mime_type@ == mime_type@,
            r.size_bytes == size_bytes,
            r.checksum@ == checksum@,
            r.storage_bucket@ == storage_bucket@,
            r.storage_key@ == storage_key@,
            r.presigned_url is None,
            r.url_expires_at is None,
    {
        FileMetadata {
            id: new_id(),
            thread_id,
            message_id: None,
            filename: filename.to_string(),
            mime_type: mime_type.to_string(),
            size_bytes,
            checksum: checksum.to_string(),
            storage_bucket: storage_bucket.to_string(),
            storage_key: storage_key.to_string(),
            created_at: now_micros(),
            presigned_url: None,
            url_expires_at: None,
        }
    }

    /// Associate this file with a message.
    pub fn with_message_id(self, message_id: u128) -> (r: Self)
        ensures
            r == (FileMetadata { message_id: Some(message_id), ..self }),
    {
        FileMetadata { message_id: Some(message_id), ..self }
    }

    /// Set the presigned URL and its expiration time.
    pub fn with_presigned_url(self, url: String, expires_at: i64) -> (r: Self)
        ensures
            r == (FileMetadata { presigned_url: Some(url), url_expires_at: Some(expires_at), ..self }),
    {
        FileMetadata { presigned_url: Some(url), url_expires_at: Some(expires_at), ..self }
    }

    /// Whether the presigned URL is still valid at time `now`.
    pub fn is_url_valid_at(&self, now: i64) -> (r: bool)
        ensures
            r <==> (self.url_expires_at matches Some(e) && now < e),
    {
        match self.url_expires_at {
            Some(expires) => now < expires,
            None => false,
        }
    }

    /// Whether the presigned URL is still valid now; without an expiration it is not.
    pub fn is_url_valid(&self) -> (r: bool)
        ensures
            self.url_expires_at is None ==> !r,
    {
        let now = now_micros();
        self.is_url_valid_at(now)
    }

    /// Whether the file is an image, judged by its MIME type.
    pub fn is_image(&self) -> (r: bool)
        ensures
            r == spec_starts_with(self.mime_type@, "image/"@),
    {
        str_starts_with(self.mime_type.as_str(), "image/")
    }

    /// The full storage path: bucket, `/`, key.
    pub fn storage_path(&self) -> (r: String)
        ensures
            r@ == self.storage_bucket@ + "/"@ + self.storage_key@,
    {
        let mut r = self.storage_bucket.clone();
        r.append("/");
        r.append(self.storage_key.as_str());
        r
    }
}

} // verus!
