//! `POST /webhooks/radarr` and `POST /webhooks/sonarr`: Radarr/Sonarr
//! import notices that start an `import` job. The media id and the file path
//! come from the JSON body when there is one, else from the query string.

use vstd::prelude::*;

use crate::error::{AppError, AppErrorView};
use crate::jobs::{entries_map, entry_view, JobArgs};
use crate::state::{clock_now, is_random_uuid, new_job_id, JobRecord, JobStatus};
use crate::text::{decimal, decimal_string, hex_lower_char, owned};

verus! {

/// The query string of a webhook call.
#[derive(Debug)]
pub struct ImportQuery {
    pub media_id: Option<String>,
    pub path: Option<String>,
}

/// The fields of a Radarr/Sonarr webhook body that the import reads. The
/// nested objects of the body are kept as the values read out of them:
/// `movie.tmdbId`, `series.tvdbId`, `movieFile.path`, `episodeFile.path`
/// (each `None` when the object, the field, or a value of the right type is
/// missing).
#[derive(Debug, Default)]
pub struct RadarrWebhook {
    pub media_id: Option<String>,
    pub path: Option<String>,
    pub movie_tmdb_id: Option<u64>,
    pub movie_file_path: Option<String>,
    pub series_tvdb_id: Option<u64>,
    pub episode_file_path: Option<String>,
    /// Radarr sends `Download` or `Test`.
    pub event_type: Option<String>,
    /// Radarr's own numeric id of the movie.
    pub movie_id: Option<u64>,
    /// The TMDB id, when the custom script sends it.
    pub tmdb_id: Option<u64>,
    /// The TVDB id of a series.
    pub tvdb_id: Option<u64>,
}

/// An optional string, as a value.
pub open spec fn opt_text(o: Option<String>) -> Option<Seq<char>> {
    match o {
        Some(s) => Some(s@),
        None => None,
    }
}

/// A typed media id: `tmdb:` or `tvdb:` and the number in decimal.
pub open spec fn typed_id(prefix: Seq<char>, n: u64) -> Seq<char> {
    prefix + decimal(n as nat)
}

/// The media id a body names: its `media_id`; else its TMDB id, its TVDB
/// id, the movie's TMDB id, the series' TVDB id, each typed.
pub open spec fn body_media_id(b: RadarrWebhook) -> Option<Seq<char>> {
    if b.media_id is Some {
        opt_text(b.media_id)
    } else if b.tmdb_id is Some {
        Some(typed_id("tmdb:"@, b.tmdb_id->0))
    } else if b.tvdb_id is Some {
        Some(typed_id("tvdb:"@, b.tvdb_id->0))
    } else if b.movie_tmdb_id is Some {
        Some(typed_id("tmdb:"@, b.movie_tmdb_id->0))
    } else if b.series_tvdb_id is Some {
        Some(typed_id("tvdb:"@, b.series_tvdb_id->0))
    } else {
        None
    }
}

/// The file path a body names: its `path`; else the movie file's path; else
/// the episode file's path.
pub open spec fn body_path(b: RadarrWebhook) -> Option<Seq<char>> {
    if b.path is Some {
        opt_text(b.path)
    } else if b.movie_file_path is Some {
        opt_text(b.movie_file_path)
    } else {
        opt_text(b.episode_file_path)
    }
}

fn typed(prefix: &str, n: u64) -> (s: String)
    ensures
        s@ == typed_id(prefix@, n),
{
    let mut s = owned(prefix);
    let d = decimal_string(n);
    s.append(d.as_str());
    s
}

/// The media id and the path of a webhook call: from the body when there is
/// one, else from the query string.
pub fn extract_fields(query: ImportQuery, body: Option<RadarrWebhook>) -> (r: (
    Option<String>,
    Option<String>,
))
    ensures
        match body {
            Some(b) => opt_text(r.0) == body_media_id(b) && opt_text(r.1) == body_path(b),
            None => opt_text(r.0) == opt_text(query.media_id) && opt_text(r.1) == opt_text(
                query.path,
            ),
        },
{
    match body {
        Some(b) => {
            let mid = if b.media_id.is_some() {
                b.media_id
            } else if let Some(n) = b.tmdb_id {
                Some(typed("tmdb:", n))
            } else if let Some(n) = b.tvdb_id {
                Some(typed("tvdb:", n))
            } else if let Some(n) = b.movie_tmdb_id {
                Some(typed("tmdb:", n))
            } else if let Some(n) = b.series_tvdb_id {
                Some(typed("tvdb:", n))
            } else {
                None
            };
            let p = if b.path.is_some() {
                b.path
            } else if b.movie_file_path.is_some() {
                b.movie_file_path
            } else {
                b.episode_file_path
            };
            (mid, p)
        },
        None => (query.media_id, query.path),
    }
}

/// How serde_json writes a character inside a JSON string: `"` and `\`
/// behind a backslash; backspace, tab, line feed, form feed and carriage
/// return as `\b \t \n \f \r`; the other control characters below
/// U+0020 as `\u00` and two lower-case hexadecimal digits; any other
/// character as itself.
pub open spec fn json_escape_char(c: char) -> Seq<char> {
    let n = c as u32;
    if c == '"' {
        seq!['\\', '"']
    } else if c == '\\' {
        seq!['\\', '\\']
    } else if n == 8 {
        seq!['\\', 'b']
    } else if n == 9 {
        seq!['\\', 't']
    } else if n == 10 {
        seq!['\\', 'n']
    } else if n == 12 {
        seq!['\\', 'f']
    } else if n == 13 {
        seq!['\\', 'r']
    } else if n < 32 {
        seq!['\\', 'u', '0', '0', hex_lower_char((n / 16) as int), hex_lower_char((n % 16) as int)]
    } else {
        seq![c]
    }
}

/// The characters of `s`, each escaped for a JSON string.
pub open spec fn json_escaped(s: Seq<char>) -> Seq<char>
    decreases s.len(),
{
    if s.len() == 0 {
        Seq::empty()
    } else {
        json_escaped(s.drop_last()) + json_escape_char(s.last())
    }
}

/// A JSON string literal holding `s`.
pub open spec fn json_string(s: Seq<char>) -> Seq<char> {
    "\""@ + json_escaped(s) + "\""@
}

/// A member `"name":"value"` of a JSON object.
pub open spec fn json_member(e: (Seq<char>, Seq<char>)) -> Seq<char> {
    json_string(e.0) + ":"@ + json_string(e.1)
}

/// The members joined with `,`, in the order given.
pub open spec fn json_members(es: Seq<(Seq<char>, Seq<char>)>) -> Seq<char>
    decreases es.len(),
{
    if es.len() == 0 {
        Seq::empty()
    } else if es.len() == 1 {
        json_member(es[0])
    } else {
        json_members(es.drop_last()) + ","@ + json_member(es.last())
    }
}

/// A compact JSON object with the given members, in the order given.
pub open spec fn json_object(es: Seq<(Seq<char>, Seq<char>)>) -> Seq<char> {
    "{"@ + json_members(es) + "}"@
}

/// No name occurs twice among the entries.
pub open spec fn distinct_names(es: Seq<(Seq<char>, Seq<char>)>) -> bool {
    forall|i: int, j: int| 0 <= i < j < es.len() ==> (#[trigger] es[i]).0 != (#[trigger] es[j]).0
}

/// `text` is a compact JSON object whose members are exactly the names and
/// values of `m`, each once, in some order.
pub open spec fn json_object_of(text: Seq<char>, m: Map<Seq<char>, Seq<char>>) -> bool {
    exists|es: Seq<(Seq<char>, Seq<char>)>|
        distinct_names(es) && entries_map(es) == m && text == #[trigger] json_object(es)
}

/// `serde_json::to_string` of the entries collected into a
/// `HashMap<String, String>` (collecting inserts each entry in turn, so a
/// later entry for a name overrides an earlier one). Claimed: the text is
/// the compact JSON object of that map, each member written once with
/// serde_json's string escapes. The order of the members follows the map's
/// walk, which each process seeds at random, so only "some order" is
/// claimed. Serializing a map of strings does not fail.
#[verifier::external_body]
fn args_json(entries: &Vec<(String, String)>) -> (s: String)
    ensures
        json_object_of(s@, entries_map(entries@.map_values(|e: (String, String)| entry_view(e)))),
{
    let m: std::collections::HashMap<String, String> = entries.iter().cloned().collect();
    serde_json::to_string(&m).unwrap_or_default()
}

/// An accepted import notice: the media id, the path, and the arguments of
/// the `import` job it starts (`media_id`, `path`, and `lang` = `es-ES`).
#[derive(Debug)]
pub struct ImportAccepted {
    pub media_id: String,
    pub path: String,
    pub args: JobArgs,
}

/// Reads an import notice. It is refused when no media id can be found
/// (first) or when no path can be found.
pub fn import(query: ImportQuery, body: Option<RadarrWebhook>) -> (r: Result<
    ImportAccepted,
    AppError,
>)
    ensures
        ({
            let (mid, path) = match body {
                Some(b) => (body_media_id(b), body_path(b)),
                None => (opt_text(query.media_id), opt_text(query.path)),
            };
            match r {
                Ok(a) => mid == Some(a.media_id@) && path == Some(a.path@) && a.args@ == Map::<
                    Seq<char>,
                    Seq<char>,
                >::empty().insert("media_id"@, a.media_id@).insert("path"@, a.path@).insert(
                    "lang"@,
                    "es-ES"@,
                ),
                Err(e) => (mid is None && e@ == AppErrorView::BadRequest(
                    "missing media_id/tmdbId/tvdbId"@,
                )) || (mid is Some && path is None && e@ == AppErrorView::BadRequest(
                    "missing path/movieFile.path"@,
                )),
            }
        }),
{
    let (media_id, path) = extract_fields(query, body);
    let media_id = match media_id {
        Some(m) => m,
        None => {
            return Err(AppError::BadRequest(owned("missing media_id/tmdbId/tvdbId")));
        },
    };
    let path = match path {
        Some(p) => p,
        None => {
            return Err(AppError::BadRequest(owned("missing path/movieFile.path")));
        },
    };
    let mut args = JobArgs::new();
    args.insert("media_id", media_id.clone());
    args.insert("path", path.clone());
    args.insert("lang", owned("es-ES"));
    Ok(ImportAccepted { media_id, path, args })
}

impl ImportAccepted {
    /// The queued `import` job for this notice, with id `id`, created at
    /// `now`, whose notes are `notes` (the arguments, serialized).
    pub fn record(&self, id: u128, now: i64, notes: String) -> (r: JobRecord)
        ensures
            r.id == id,
            r.kind@ == "import"@,
            r.media_id@ == self.media_id@,
            r.status == JobStatus::Queued,
            r.notes == Some(notes),
            r.created_at == now,
    {
        JobRecord {
            id,
            kind: owned("import"),
            media_id: self.media_id.clone(),
            status: JobStatus::Queued,
            notes: Some(notes),
            created_at: now,
        }
    }

    /// The queued `import` job for this notice under a fresh random id,
    /// created now, whose notes are its arguments as a JSON object (each
    /// argument once, in some order).
    pub fn job_record(&self) -> (r: JobRecord)
        ensures
            is_random_uuid(r.id),
            r.kind@ == "import"@,
            r.media_id@ == self.media_id@,
            r.status == JobStatus::Queued,
            r.notes matches Some(n) && json_object_of(n@, self.args@),
    {
        let notes = args_json(self.args.entries());
        let id = new_job_id();
        let now = clock_now();
        self.record(id, now, notes)
    }
}

} // verus!
