//! The computations around an upload: where a file is stored, its checksum, its size,
//! and the bytes of base64-encoded inline data.

use vstd::prelude::*;
use crate::ids::{spec_uuid_text, uuid_text};
use crate::json::{hex_digit, push_char, spec_hex_digit};
use crate::minio::error::MinioError;
use crate::text::concat;
use base64::Engine;
use sha2::Digest;

verus! {

/// The two lowercase hexadecimal digits of each byte in turn.
pub open spec fn spec_hex_bytes(b: Seq<u8>) -> Seq<char>
    decreases b.len(),
{
    if b.len() == 0 {
        Seq::empty()
    } else {
        spec_hex_bytes(b.drop_last()) + seq![
            spec_hex_digit((b.last() / 16) as u32),
            spec_hex_digit((b.last() % 16) as u32),
        ]
    }
}

/// Lowercase hexadecimal text of bytes, two digits a byte.
pub fn hex_lower(bytes: &[u8]) -> (r: String)
    ensures
        r@ == spec_hex_bytes(bytes@),
{
    let mut r = String::new();
    let mut i: usize = 0;
    while i < bytes.len()
        invariant
            i <= bytes@.len(),
            r@ == spec_hex_bytes(bytes@.take(i as int)),
        decreases bytes@.len() - i,
    {
        let b: u8 = bytes[i];
        push_char(&mut r, hex_digit((b / 16) as u32));
        push_char(&mut r, hex_digit((b % 16) as u32));
        proof {
            assert(bytes@.take(i + 1).drop_last() =~= bytes@.take(i as int));
            assert(bytes@.take(i + 1).last() == b);
        }
        i = i + 1;
    }
    assert(bytes@.take(bytes@.len() as int) =~= bytes@);
    r
}

/// The SHA-256 digest of a byte sequence.
pub uninterp spec fn spec_sha256(data: Seq<u8>) -> Seq<u8>;

/// `sha2::Sha256::digest`: the SHA-256 digest of the data, which is 32 bytes long.
#[verifier::external_body]
fn sha256_digest(data: &[u8]) -> (r: Vec<u8>)
    ensures
        r@ == spec_sha256(data@),
        r@.len() == 32,
{
    sha2::Sha256::digest(data).to_vec()
}

/// The checksum recorded for uploaded data: its SHA-256 digest in lowercase hex.
pub fn calculate_checksum(data: &[u8]) -> (r: String)
    ensures
        r@ == spec_hex_bytes(spec_sha256(data@)),
        r@.len() == 64,
{
    let digest = sha256_digest(data);
    let r = hex_lower(digest.as_slice());
    proof {
        lemma_hex_bytes_len(spec_sha256(data@));
    }
    r
}

/// Hex text has two digits a byte.
pub proof fn lemma_hex_bytes_len(b: Seq<u8>)
    ensures
        spec_hex_bytes(b).len() == 2 * b.len(),
    decreases b.len(),
{
    if b.len() > 0 {
        lemma_hex_bytes_len(b.drop_last());
    }
}

/// The storage key of a file: `{thread_id}/{file_id}/{filename}`.
pub open spec fn spec_storage_key(thread_id: u128, file_id: u128, filename: Seq<char>) -> Seq<char> {
    spec_uuid_text(thread_id) + "/"@ + spec_uuid_text(file_id) + "/"@ + filename
}

/// The storage key of a file in a thread: `{thread_id}/{file_id}/{filename}`.
pub fn generate_key(thread_id: u128, file_id: u128, filename: &str) -> (r: String)
    ensures
        r@ == spec_storage_key(thread_id, file_id, filename@),
{
    let t = uuid_text(thread_id);
    let f = uuid_text(file_id);
    let mut r = concat(t.as_str(), "/");
    r.append(f.as_str());
    r.append("/");
    r.append(filename);
    r
}

/// What the standard base64 alphabet with padding decodes a text to: its bytes, or the
/// text of the decoding error.
pub uninterp spec fn spec_base64_decode(data: Seq<char>) -> Result<Seq<u8>, Seq<char>>;

/// `base64::engine::general_purpose::STANDARD.decode`: the bytes the text encodes, or
/// the `Display` text of the `DecodeError`.
#[verifier::external_body]
fn base64_decode(data: &str) -> (r: Result<Vec<u8>, String>)
    ensures
        match r {
            Ok(v) => spec_base64_decode(data@) == Ok::<Seq<u8>, Seq<char>>(v@),
            Err(e) => spec_base64_decode(data@) == Err::<Seq<u8>, Seq<char>>(e@),
        },
{
    match base64::engine::general_purpose::STANDARD.decode(data) {
        Ok(v) => Ok(v),
        Err(e) => Err(e.to_string()),
    }
}

/// Decodes base64 inline data: its bytes, or an upload error naming the invalid data.
pub fn decode_base64(data: &str) -> (r: Result<Vec<u8>, MinioError>)
    ensures
        match spec_base64_decode(data@) {
            Ok(bytes) => r matches Ok(v) && v@ == bytes,
            Err(text) => r matches Err(MinioError::Upload { message })
                && message@ == "Invalid base64 data: "@ + text,
        },
{
    match base64_decode(data) {
        Ok(v) => Ok(v),
        Err(e) => Err(MinioError::Upload { message: concat("Invalid base64 data: ", e.as_str()) }),
    }
}

/// The result of an upload.
#[derive(Debug, Clone)]
pub struct UploadResult {
    /// The storage key the file was uploaded to.
    pub key: String,
    /// SHA-256 checksum of the data in lowercase hex.
    pub checksum: String,
    /// Size of the data in bytes.
    pub size_bytes: i64,
}

/// What an upload of the data under the key reports once the store accepted it: the
/// key, the checksum of the data and its size.
pub fn prepare_upload(key: &str, data: &[u8]) -> (r: UploadResult)
    requires
        data@.len() <= i64::MAX,
    ensures
        r.key@ == key@,
        r.checksum@ == spec_hex_bytes(spec_sha256(data@)),
        r.size_bytes == data@.len(),
{
    let checksum = calculate_checksum(data);
    let size_bytes = data.len() as i64;
    UploadResult { key: key.to_string(), checksum, size_bytes }
}

} // verus!
