//! Radarr (movies).

use vstd::prelude::*;

use super::ArrClient;
use crate::text::{decimal, decimal_string, owned, urlencode_spec, urlencoding};

/// Percent-encoding of search terms.
pub use crate::text::urlencoding as urlencoded;

verus! {

/// A Radarr API.
#[derive(Clone, Debug)]
pub struct RadarrClient {
    pub inner: ArrClient,
}

/// The body of the request that adds a movie to Radarr.
#[derive(Debug)]
pub struct NewMovie {
    pub title: String,
    pub quality_profile_id: u64,
    pub tmdb_id: u64,
    pub year: u64,
    pub root_folder_path: String,
    pub monitored: bool,
    pub minimum_availability: String,
    pub search_for_movie: bool,
}

impl RadarrClient {
    /// A client of the Radarr API at `base_url`.
    pub fn new(base_url: &str, api_key: &str) -> (c: RadarrClient)
        ensures
            c.inner.base_url@ == crate::text::trim_end_char(base_url@, '/'),
            c.inner.api_key@ == api_key@,
    {
        RadarrClient { inner: ArrClient::new(base_url, api_key) }
    }

    /// The path that looks a movie up by TMDB id.
    pub fn tmdb_lookup_path(tmdb_id: u32) -> (p: String)
        ensures
            p@ == "/api/v3/movie/lookup/tmdb?tmdbId="@ + decimal(tmdb_id as nat),
    {
        let mut p = owned("/api/v3/movie/lookup/tmdb?tmdbId=");
        let d = decimal_string(tmdb_id as u64);
        p.append(d.as_str());
        p
    }

    /// The path that searches movies by a free-text term.
    pub fn term_lookup_path(term: &str) -> (p: String)
        ensures
            p@ == "/api/v3/movie/lookup?term="@ + urlencode_spec(term@),
    {
        let mut p = owned("/api/v3/movie/lookup?term=");
        let e = urlencoding(term);
        p.append(e.as_str());
        p
    }

    /// The movie to add, monitored and searched for, under `/movies` with
    /// quality profile 1, available once released: the TMDB id and the year
    /// come from the lookup answer when it has them (else the requested id
    /// and 0).
    pub fn new_movie(title: &str, tmdb_id: u32, lookup_tmdb_id: Option<u64>, lookup_year: Option<
        u64,
    >) -> (m: NewMovie)
        ensures
            m.title@ == title@,
            m.quality_profile_id == 1,
            m.tmdb_id == match lookup_tmdb_id {
                Some(t) => t,
                None => tmdb_id as u64,
            },
            m.year == match lookup_year {
                Some(y) => y,
                None => 0,
            },
            m.root_folder_path@ == "/movies"@,
            m.monitored,
            m.minimum_availability@ == "released"@,
            m.search_for_movie,
    {
        NewMovie {
            title: owned(title),
            quality_profile_id: 1,
            tmdb_id: match lookup_tmdb_id {
                Some(t) => t,
                None => tmdb_id as u64,
            },
            year: match lookup_year {
                Some(y) => y,
                None => 0,
            },
            root_folder_path: owned("/movies"),
            monitored: true,
            minimum_availability: owned("released"),
            search_for_movie: true,
        }
    }
}

} // verus!
