//! Clients of Radarr and Sonarr: where their API lives and how to
//! authenticate, and the paths and bodies of the calls the worker makes.

pub mod radarr;
pub mod sonarr;

use vstd::prelude::*;

use crate::text::{owned, trim_end_char, trim_end_matches_char};

verus! {

/// How long an API call may take, in seconds.
pub const HTTP_TIMEOUT_SECS: u64 = 15;

/// The name of the header that carries the API key.
pub open spec fn api_key_header_spec() -> Seq<char> {
    "X-Api-Key"@
}

/// A Radarr/Sonarr API: its base URL (without trailing slashes) and its API
/// key. The HTTP transport that makes the calls is kept apart from it.
#[derive(Clone, Debug)]
pub struct ArrClient {
    pub base_url: String,
    pub api_key: String,
}

impl ArrClient {
    /// A client of the API at `base_url` (trailing slashes dropped).
    pub fn new(base_url: &str, api_key: &str) -> (c: ArrClient)
        ensures
            c.base_url@ == trim_end_char(base_url@, '/'),
            c.api_key@ == api_key@,
    {
        ArrClient { base_url: trim_end_matches_char(base_url, '/'), api_key: owned(api_key) }
    }

    /// The URL of an API path: the base URL followed by `path`.
    pub fn url(&self, path: &str) -> (u: String)
        ensures
            u@ == self.base_url@ + path@,
    {
        let mut u = owned(self.base_url.as_str());
        u.append(path);
        u
    }

    /// The URL of the status check that `ping` calls.
    pub fn status_url(&self) -> (u: String)
        ensures
            u@ == self.base_url@ + "/api/v3/system/status"@,
    {
        self.url("/api/v3/system/status")
    }

    /// The name of the header that carries the API key.
    pub fn api_key_header(&self) -> (h: &'static str)
        ensures
            h@ == api_key_header_spec(),
    {
        "X-Api-Key"
    }
}

} // verus!
