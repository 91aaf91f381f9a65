//! The client of the movie API, used to tell it when a job ends.

use vstd::prelude::*;

use crate::text::{owned, trim_end_char, trim_end_matches_char};

verus! {

/// How long a callback may take, in seconds.
pub const HTTP_TIMEOUT_SECS: u64 = 3;

/// The movie API: its base URL, without trailing slashes. The HTTP
/// transport that makes the calls is kept apart from it.
#[derive(Clone, Debug)]
pub struct ApiClient {
    base_url: String,
}

impl ApiClient {
    /// A client of the API at `base_url` (trailing slashes dropped).
    pub fn new(base_url: &str) -> (c: ApiClient)
        ensures
            c.base_url_spec() == trim_end_char(base_url@, '/'),
    {
        ApiClient { base_url: trim_end_matches_char(base_url, '/') }
    }

    /// The API's base URL.
    pub closed spec fn base_url_spec(&self) -> Seq<char> {
        self.base_url@
    }

    /// The URL that a job's end is reported to (with a PATCH):
    /// `<base>/api/internal/jobs/<job_id>`.
    pub fn job_url(&self, job_id: &str) -> (u: String)
        ensures
            u@ == self.base_url_spec() + "/api/internal/jobs/"@ + job_id@,
    {
        let mut u = owned(self.base_url.as_str());
        u.append("/api/internal/jobs/");
        u.append(job_id);
        u
    }
}

} // verus!
