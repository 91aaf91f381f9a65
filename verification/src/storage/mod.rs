//! Storage provider model: the backend kinds, object metadata, the errors of
//! the S3 layer, and the construction of the S3 configuration from the
//! environment's values.

pub mod s3;

use vstd::prelude::*;

use crate::text::{ascii_lowercase, chars_eq, chars_of, owned, str_eq, to_ascii_lowercase, trim_end_char};
use s3::{S3Storage, S3View};

verus! {

/// The S3-compatible service that the bucket lives on.
#[derive(Clone, Copy, Debug, PartialEq, Eq, Structural)]
pub enum Backend {
    Minio,
    Aws,
    R2,
    GenericS3,
}

/// The backend that a `STORAGE_BACKEND` value names, compared without regard
/// to ASCII case.
pub open spec fn backend_named(name: Seq<char>) -> Backend {
    let l = ascii_lowercase(name);
    if l == "minio"@ {
        Backend::Minio
    } else if l == "aws"@ || l == "s3"@ || l == "aws-s3"@ {
        Backend::Aws
    } else if l == "r2"@ || l == "cloudflare"@ {
        Backend::R2
    } else {
        Backend::GenericS3
    }
}

/// The label of a backend in logs.
pub open spec fn backend_label(b: Backend) -> Seq<char> {
    match b {
        Backend::Minio => "minio"@,
        Backend::Aws => "aws-s3"@,
        Backend::R2 => "cloudflare-r2"@,
        Backend::GenericS3 => "s3-generic"@,
    }
}

fn lowered_is(lowered: &Vec<char>, name: &str) -> (r: bool)
    ensures
        r == (lowered@ == name@),
{
    let v = chars_of(name);
    chars_eq(lowered, &v)
}

impl Backend {
    /// Reads a backend name: `minio`; `aws`, `s3` or `aws-s3`; `r2` or
    /// `cloudflare`; anything else is a generic S3 service.
    pub fn from_env(s: &str) -> (b: Backend)
        ensures
            b == backend_named(s@),
    {
        let l = to_ascii_lowercase(s);
        if lowered_is(&l, "minio") {
            Backend::Minio
        } else if lowered_is(&l, "aws") || lowered_is(&l, "s3") || lowered_is(&l, "aws-s3") {
            Backend::Aws
        } else if lowered_is(&l, "r2") || lowered_is(&l, "cloudflare") {
            Backend::R2
        } else {
            Backend::GenericS3
        }
    }

    /// The label of the backend in logs.
    pub fn label(&self) -> (s: &'static str)
        ensures
            s@ == backend_label(*self),
    {
        match self {
            Backend::Minio => "minio",
            Backend::Aws => "aws-s3",
            Backend::R2 => "cloudflare-r2",
            Backend::GenericS3 => "s3-generic",
        }
    }
}

/// Errors of the storage layer that arise before any request is sent.
#[derive(Debug)]
pub enum StorageError {
    /// No endpoint was configured (`S3_ENDPOINT`).
    MissingEndpoint,
    /// No access key was configured (`S3_ACCESS_KEY`).
    MissingAccessKey,
    /// No secret key was configured (`S3_SECRET_KEY`).
    MissingSecretKey,
    /// The endpoint is not a valid URL.
    EndpointParse(url::ParseError),
    /// The endpoint URL has no host.
    NoHost,
    /// The clock value is outside the range of calendar dates.
    ClockOutOfRange,
}

/// An optional string, as a value.
pub open spec fn opt_string_view(o: Option<String>) -> Option<Seq<char>> {
    match o {
        Some(s) => Some(s@),
        None => None,
    }
}

/// Metadata of an object in the bucket.
#[derive(Clone, Debug)]
pub struct ObjectInfo {
    pub key: String,
    pub size: u64,
    pub content_type: Option<String>,
    pub etag: Option<String>,
    /// Seconds since the Unix epoch.
    pub last_modified: Option<i64>,
}

/// The metadata of an object, as values.
pub struct ObjectInfoView {
    pub key: Seq<char>,
    pub size: u64,
    pub content_type: Option<Seq<char>>,
    pub etag: Option<Seq<char>>,
    pub last_modified: Option<i64>,
}

impl View for ObjectInfo {
    type V = ObjectInfoView;

    open spec fn view(&self) -> ObjectInfoView {
        ObjectInfoView {
            key: self.key@,
            size: self.size,
            content_type: opt_string_view(self.content_type),
            etag: opt_string_view(self.etag),
            last_modified: self.last_modified,
        }
    }
}

/// The environment's storage settings, each `None` where the variable is
/// unset (or not valid Unicode): `S3_ENDPOINT`, `S3_PUBLIC_ENDPOINT`,
/// `S3_BUCKET`, `S3_REGION`, `S3_ACCESS_KEY`, `S3_SECRET_KEY`,
/// `STORAGE_BACKEND`, `S3_FORCE_PATH_STYLE`.
pub struct StorageEnv {
    pub endpoint: Option<String>,
    pub public_endpoint: Option<String>,
    pub bucket: Option<String>,
    pub region: Option<String>,
    pub access_key: Option<String>,
    pub secret_key: Option<String>,
    pub backend: Option<String>,
    pub force_path_style: Option<String>,
}

/// The value of a setting, or `fallback` when it is unset.
pub open spec fn setting_or(o: Option<String>, fallback: Seq<char>) -> Seq<char> {
    match o {
        Some(s) => s@,
        None => fallback,
    }
}

/// Path-style addressing: on unless the setting is present and neither
/// `true` nor `1`.
pub open spec fn path_style_setting(o: Option<String>) -> bool {
    match o {
        Some(v) => v@ == "true"@ || v@ == "1"@,
        None => true,
    }
}

/// The configuration that `build_from_env` builds from complete settings.
pub open spec fn configured_storage(env: StorageEnv) -> S3View {
    let e = setting_or(env.endpoint, Seq::empty());
    S3View {
        endpoint: trim_end_char(e, '/'),
        public_endpoint: trim_end_char(setting_or(env.public_endpoint, e), '/'),
        region: setting_or(env.region, "us-east-1"@),
        bucket: setting_or(env.bucket, "media"@),
        access_key: setting_or(env.access_key, Seq::empty()),
        secret_key: setting_or(env.secret_key, Seq::empty()),
        path_style: path_style_setting(env.force_path_style),
        backend: backend_named(setting_or(env.backend, "minio"@)),
    }
}

fn setting(o: Option<String>, fallback: &str) -> (s: String)
    ensures
        s@ == setting_or(o, fallback@),
{
    match o {
        Some(s) => s,
        None => owned(fallback),
    }
}

/// Builds the S3 configuration from the environment's settings: the bucket
/// defaults to `media`, the region to `us-east-1`, the backend to `minio`;
/// the access key, the secret key and the endpoint are required, and are
/// checked in that order.
pub fn build_from_env(env: StorageEnv) -> (r: Result<S3Storage, StorageError>)
    ensures
        env.access_key is None ==> r matches Err(StorageError::MissingAccessKey),
        env.access_key is Some && env.secret_key is None ==> r matches Err(
            StorageError::MissingSecretKey,
        ),
        env.access_key is Some && env.secret_key is Some && env.endpoint is None ==> r matches Err(
            StorageError::MissingEndpoint,
        ),
        env.access_key is Some && env.secret_key is Some && env.endpoint is Some ==> (r matches Ok(s)
            && s@ == configured_storage(env)),
        r matches Ok(s) ==> s@.wf(),
{
    let bucket = setting(env.bucket, "media");
    let region = setting(env.region, "us-east-1");
    let access_key = match env.access_key {
        Some(k) => k,
        None => {
            return Err(StorageError::MissingAccessKey);
        },
    };
    let secret_key = match env.secret_key {
        Some(k) => k,
        None => {
            return Err(StorageError::MissingSecretKey);
        },
    };
    let backend_name = setting(env.backend, "minio");
    let backend = Backend::from_env(backend_name.as_str());
    let force_path_style = match &env.force_path_style {
        Some(v) => str_eq(v.as_str(), "true") || str_eq(v.as_str(), "1"),
        None => true,
    };
    S3Storage::new(
        backend,
        env.endpoint,
        env.public_endpoint,
        bucket,
        region,
        access_key,
        secret_key,
        force_path_style,
    )
}

/// What the settings make of the configuration: path-style addressing is
/// on when `S3_FORCE_PATH_STYLE` is unset, `true` or `1`, and off for any
/// other value; the region, the bucket and the keys are the ones set, with
/// `us-east-1` and `media` where the region or the bucket is unset.
pub proof fn lemma_settings_reach_the_configuration(env: StorageEnv)
    ensures
        configured_storage(env).path_style <==> match env.force_path_style {
            None => true,
            Some(v) => v@ == "true"@ || v@ == "1"@,
        },
        configured_storage(env).region == match env.region {
            Some(r) => r@,
            None => "us-east-1"@,
        },
        configured_storage(env).bucket == match env.bucket {
            Some(b) => b@,
            None => "media"@,
        },
        env.access_key matches Some(k) ==> configured_storage(env).access_key == k@,
        env.secret_key matches Some(k) ==> configured_storage(env).secret_key == k@,
{
}

/// Helpers on storage clients.
pub trait StorageExt {
    /// The label of the client's backend in logs.
    fn back_backend_str(&self) -> &'static str;
}

impl StorageExt for S3Storage {
    fn back_backend_str(&self) -> (s: &'static str)
        ensures
            s@ == backend_label(self@.backend),
    {
        self.backend().label()
    }
}

} // verus!
