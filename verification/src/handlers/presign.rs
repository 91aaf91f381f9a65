//! `POST /storage/presign` and `GET /storage/list`: the bodies they read and
//! answer, and their defaults.

use vstd::prelude::*;

verus! {

/// A request for a presigned GET URL of object `key`, valid `ttl_secs`
/// seconds.
#[derive(Debug)]
pub struct PresignRequest {
    pub key: String,
    pub ttl_secs: u64,
}

/// A presigned URL and how long it stays valid, in seconds.
#[derive(Debug)]
pub struct PresignResponse {
    pub url: String,
    pub expires_in: u64,
}

/// A listing of the objects under `prefix`, at most `limit` of them.
#[derive(Debug)]
pub struct ListQuery {
    pub prefix: String,
    pub limit: usize,
}

/// The validity of a presigned URL when the request names none: one hour.
pub fn default_ttl() -> (t: u64)
    ensures
        t == 3600,
{
    3600
}

/// The size of a listing when the request names none.
pub fn default_limit() -> (n: usize)
    ensures
        n == 100,
{
    100
}

} // verus!
