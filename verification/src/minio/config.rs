//! Object storage configuration.

use std::time::Duration;
use vstd::prelude::*;
use crate::tensorzero::request::opt_str_view;

verus! {

/// The whole seconds of a duration, as `Duration::as_secs` reports them.
pub uninterp spec fn spec_duration_secs(d: Duration) -> u64;

/// The duration that `Duration::from_secs` makes of a number of seconds.
pub uninterp spec fn spec_duration_from_secs(secs: u64) -> Duration;

/// `Duration::from_secs`: the duration of `secs` whole seconds and no nanoseconds,
/// whose whole seconds are `secs`.
#[verifier::external_body]
fn duration_from_secs(secs: u64) -> (d: Duration)
    ensures
        d == spec_duration_from_secs(secs),
        spec_duration_secs(d) == secs,
{
    Duration::from_secs(secs)
}

/// `Duration::as_secs`: the whole seconds of a duration.
#[verifier::external_body]
fn duration_as_secs(d: &Duration) -> (r: u64)
    ensures
        r == spec_duration_secs(*d),
{
    d.as_secs()
}

/// Configuration of an S3-compatible object store.
#[derive(Debug)]
pub struct MinioConfig {
    /// Endpoint URL (for example `http://localhost:9000`).
    pub endpoint: String,
    /// Access key ID.
    pub access_key: String,
    /// Secret access key.
    pub secret_key: String,
    /// Default bucket name.
    pub bucket: String,
    /// Region (`us-east-1` unless set).
    pub region: String,
    /// Whether buckets are addressed by path, as MinIO needs.
    pub path_style: bool,
    /// How long a presigned URL stays valid.
    pub presigned_url_expiry: Duration,
}

impl Clone for MinioConfig {
    fn clone(&self) -> (r: Self)
        ensures
            r.endpoint@ == self.endpoint@,
            r.access_key@ == self.access_key@,
            r.secret_key@ == self.secret_key@,
            r.bucket@ == self.bucket@,
            r.region@ == self.region@,
            r.path_style == self.path_style,
            r.presigned_url_expiry == self.presigned_url_expiry,
    {
        MinioConfig {
            endpoint: self.endpoint.clone(),
            access_key: self.access_key.clone(),
            secret_key: self.secret_key.clone(),
            bucket: self.bucket.clone(),
            region: self.region.clone(),
            path_style: self.path_style,
            presigned_url_expiry: self.presigned_url_expiry,
        }
    }
}

/// The expiry of presigned URLs unless set: one hour.
pub const DEFAULT_PRESIGNED_EXPIRY_SECS: u64 = 3600;

impl MinioConfig {
    /// A configuration for an endpoint, credentials and bucket, with region
    /// `us-east-1`, path-style addressing and presigned URLs valid for an hour.
    pub fn new(endpoint: &str, access_key: &str, secret_key: &str, bucket: &str) -> (r: Self)
        ensures
            r.endpoint@ == endpoint@,
            r.access_key@ == access_key@,
            r.secret_key@ == secret_key@,
            r.bucket@ == bucket@,
            r.region@ == "us-east-1"@,
            r.path_style,
            r.presigned_url_expiry == spec_duration_from_secs(DEFAULT_PRESIGNED_EXPIRY_SECS),
            spec_duration_secs(r.presigned_url_expiry) == DEFAULT_PRESIGNED_EXPIRY_SECS,
    {
        MinioConfig {
            endpoint: endpoint.to_string(),
            access_key: access_key.to_string(),
            secret_key: secret_key.to_string(),
            bucket: bucket.to_string(),
            region: "us-east-1".to_string(),
            path_style: true,
            presigned_url_expiry: duration_from_secs(DEFAULT_PRESIGNED_EXPIRY_SECS),
        }
    }

    /// The configuration with the region replaced.
    pub fn region(self, region: &str) -> (r: Self)
        ensures
            r.region@ == region@,
            r.endpoint == self.endpoint,
            r.access_key == self.access_key,
            r.secret_key == self.secret_key,
            r.bucket == self.bucket,
            r.path_style == self.path_style,
            r.presigned_url_expiry == self.presigned_url_expiry,
    {
        MinioConfig { region: region.to_string(), ..self }
    }

    /// The configuration with path-style addressing set.
    pub fn path_style(self, path_style: bool) -> (r: Self)
        ensures
            r.path_style == path_style,
            r.endpoint == self.endpoint,
            r.access_key == self.access_key,
            r.secret_key == self.secret_key,
            r.bucket == self.bucket,
            r.region == self.region,
            r.presigned_url_expiry == self.presigned_url_expiry,
    {
        MinioConfig { path_style, ..self }
    }

    /// The configuration with the expiry of presigned URLs replaced.
    pub fn presigned_url_expiry(self, duration: Duration) -> (r: Self)
        ensures
            r.presigned_url_expiry == duration,
            r.endpoint == self.endpoint,
            r.access_key == self.access_key,
            r.secret_key == self.secret_key,
            r.bucket == self.bucket,
            r.region == self.region,
            r.path_style == self.path_style,
    {
        MinioConfig { presigned_url_expiry: duration, ..self }
    }

    /// The expiry of presigned URLs in whole seconds.
    pub fn expiry_secs(&self) -> (r: u64)
        ensures
            r == spec_duration_secs(self.presigned_url_expiry),
    {
        duration_as_secs(&self.presigned_url_expiry)
    }

    /// The expiry handed to a presign request, which takes a 32-bit count of seconds:
    /// the whole seconds cut to their low 32 bits.
    pub fn presign_expiry_secs(&self) -> (r: u32)
        ensures
            r == spec_duration_secs(self.presigned_url_expiry) as u32,
    {
        let secs = self.expiry_secs();
        secs as u32
    }
}

/// The first of two settings that is given, by its text.
pub open spec fn spec_first_set(a: Option<String>, b: Option<String>) -> Option<Seq<char>> {
    match a {
        Some(x) => Some(x@),
        None => match b {
            Some(y) => Some(y@),
            None => None,
        },
    }
}

/// The first of two settings that is given.
fn first_set(a: Option<String>, b: Option<String>) -> (r: Option<String>)
    ensures
        opt_str_view(r) == spec_first_set(a, b),
{
    match a {
        Some(x) => Some(x),
        None => b,
    }
}

/// A configuration from the settings of an environment, each name with its fallback:
/// the endpoint from `MINIO_ENDPOINT` or else `S3_ENDPOINT`, the access key from
/// `MINIO_ACCESS_KEY` or else `AWS_ACCESS_KEY_ID`, the secret key from
/// `MINIO_SECRET_KEY` or else `AWS_SECRET_ACCESS_KEY`, the bucket from `MINIO_BUCKET`
/// or else `S3_BUCKET`, and the region from `MINIO_REGION` or else `AWS_REGION`,
/// `us-east-1` when neither is set. `None` when the endpoint, a key or the bucket is
/// missing.
pub fn minio_config_from_vars(
    minio_endpoint: Option<String>,
    s3_endpoint: Option<String>,
    minio_access_key: Option<String>,
    aws_access_key_id: Option<String>,
    minio_secret_key: Option<String>,
    aws_secret_access_key: Option<String>,
    minio_bucket: Option<String>,
    s3_bucket: Option<String>,
    minio_region: Option<String>,
    aws_region: Option<String>,
) -> (r: Option<MinioConfig>)
    ensures
        r is Some <==> {
            &&& spec_first_set(minio_endpoint, s3_endpoint) is Some
            &&& spec_first_set(minio_access_key, aws_access_key_id) is Some
            &&& spec_first_set(minio_secret_key, aws_secret_access_key) is Some
            &&& spec_first_set(minio_bucket, s3_bucket) is Some
        },
        r matches Some(c) ==> {
            &&& spec_first_set(minio_endpoint, s3_endpoint) == Some(c.endpoint@)
            &&& spec_first_set(minio_access_key, aws_access_key_id) == Some(c.access_key@)
            &&& spec_first_set(minio_secret_key, aws_secret_access_key) == Some(c.secret_key@)
            &&& spec_first_set(minio_bucket, s3_bucket) == Some(c.bucket@)
            &&& c.region@ == match spec_first_set(minio_region, aws_region) {
                Some(region) => region,
                None => "us-east-1"@,
            }
            &&& c.path_style
            &&& c.presigned_url_expiry == spec_duration_from_secs(DEFAULT_PRESIGNED_EXPIRY_SECS)
            &&& spec_duration_secs(c.presigned_url_expiry) == DEFAULT_PRESIGNED_EXPIRY_SECS
        },
{
    let endpoint = match first_set(minio_endpoint, s3_endpoint) {
        Some(v) => v,
        None => return None,
    };
    let access_key = match first_set(minio_access_key, aws_access_key_id) {
        Some(v) => v,
        None => return None,
    };
    let secret_key = match first_set(minio_secret_key, aws_secret_access_key) {
        Some(v) => v,
        None => return None,
    };
    let bucket = match first_set(minio_bucket, s3_bucket) {
        Some(v) => v,
        None => return None,
    };
    let region = match first_set(minio_region, aws_region) {
        Some(v) => v,
        None => "us-east-1".to_string(),
    };
    let config = MinioConfig::new(endpoint.as_str(), access_key.as_str(), secret_key.as_str(), bucket.as_str());
    Some(config.region(region.as_str()))
}

} // verus!
