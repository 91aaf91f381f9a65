//! Sonarr (series).

use vstd::prelude::*;

use super::ArrClient;
use crate::text::{decimal, decimal_string, owned, urlencode_spec, urlencoding};

/// Percent-encoding of search terms.
pub use crate::text::urlencoding as urlencoded;

verus! {

/// A Sonarr API.
#[derive(Clone, Debug)]
pub struct SonarrClient {
    pub inner: ArrClient,
}

/// The body of the request that adds a series to Sonarr.
#[derive(Debug)]
pub struct NewSeries {
    pub title: String,
    pub quality_profile_id: u64,
    pub tvdb_id: u64,
    pub year: u64,
    pub root_folder_path: String,
    pub monitored: bool,
    pub search_for_missing_episodes: bool,
}

impl SonarrClient {
    /// A client of the Sonarr API at `base_url`.
    pub fn new(base_url: &str, api_key: &str) -> (c: SonarrClient)
        ensures
            c.inner.base_url@ == crate::text::trim_end_char(base_url@, '/'),
            c.inner.api_key@ == api_key@,
    {
        SonarrClient { inner: ArrClient::new(base_url, api_key) }
    }

    /// The path that looks a series up by TVDB id.
    pub fn tvdb_lookup_path(tvdb_id: u32) -> (p: String)
        ensures
            p@ == "/api/v3/series/lookup?term=tvdb:"@ + decimal(tvdb_id as nat),
    {
        let mut p = owned("/api/v3/series/lookup?term=tvdb:");
        let d = decimal_string(tvdb_id as u64);
        p.append(d.as_str());
        p
    }

    /// The path that searches series by a free-text term.
    pub fn term_lookup_path(term: &str) -> (p: String)
        ensures
            p@ == "/api/v3/series/lookup?term="@ + urlencode_spec(term@),
    {
        let mut p = owned("/api/v3/series/lookup?term=");
        let e = urlencoding(term);
        p.append(e.as_str());
        p
    }

    /// The series to add, monitored with missing episodes searched for,
    /// under `/tv` with quality profile 1: the TVDB id and the year come from
    /// the lookup answer when it has them (else the requested id and 0).
    pub fn new_series(title: &str, tvdb_id: u32, lookup_tvdb_id: Option<u64>, lookup_year: Option<
        u64,
    >) -> (s: NewSeries)
        ensures
            s.title@ == title@,
            s.quality_profile_id == 1,
            s.tvdb_id == match lookup_tvdb_id {
                Some(t) => t,
                None => tvdb_id as u64,
            },
            s.year == match lookup_year {
                Some(y) => y,
                None => 0,
            },
            s.root_folder_path@ == "/tv"@,
            s.monitored,
            s.search_for_missing_episodes,
    {
        NewSeries {
            title: owned(title),
            quality_profile_id: 1,
            tvdb_id: match lookup_tvdb_id {
                Some(t) => t,
                None => tvdb_id as u64,
            },
            year: match lookup_year {
                Some(y) => y,
                None => 0,
            },
            root_folder_path: owned("/tv"),
            monitored: true,
            search_for_missing_episodes: true,
        }
    }
}

} // verus!
