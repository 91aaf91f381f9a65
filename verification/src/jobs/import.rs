//! Job: import a file that Radarr/Sonarr finished into the bucket, under
//! `media/<media_id>/<lang>/source.<ext>`, with a content type for its
//! extension.

use vstd::prelude::*;

use super::download::{source_key, source_key_of};
use super::{arg_or, arg_or_default, required_arg, JobArgs, JobError};
use crate::text::{owned, str_eq};

verus! {

/// The extension that `std::path::Path::extension` finds in `path`, if it
/// finds one that is valid Unicode.
pub uninterp spec fn path_extension(path: Seq<char>) -> Option<Seq<char>>;

/// `std::path::Path::new(path).extension()` and `to_str` of it. Claimed:
/// the result is the named extension of the path.
#[verifier::external_body]
fn extension_of(path: &str) -> (r: Option<String>)
    ensures
        match r {
            Some(e) => path_extension(path@) == Some(e@),
            None => path_extension(path@) is None,
        },
{
    match std::path::Path::new(path).extension() {
        Some(e) => e.to_str().map(String::from),
        None => None,
    }
}

/// The extension a file is stored under: its own, or `mp4`.
pub open spec fn import_extension(path: Seq<char>) -> Seq<char> {
    match path_extension(path) {
        Some(e) => e,
        None => "mp4"@,
    }
}

/// The content type of a video file by its extension.
pub open spec fn content_type_for(ext: Seq<char>) -> Seq<char> {
    if ext == "mkv"@ {
        "video/x-matroska"@
    } else if ext == "mp4"@ {
        "video/mp4"@
    } else if ext == "avi"@ {
        "video/x-msvideo"@
    } else {
        "application/octet-stream"@
    }
}

/// The content type of a video file by its extension: Matroska, MP4, AVI,
/// or bytes.
pub fn content_type(ext: &str) -> (ct: &'static str)
    ensures
        ct@ == content_type_for(ext@),
{
    if str_eq(ext, "mkv") {
        "video/x-matroska"
    } else if str_eq(ext, "mp4") {
        "video/mp4"
    } else if str_eq(ext, "avi") {
        "video/x-msvideo"
    } else {
        "application/octet-stream"
    }
}

/// What an import reads and where it stores it.
#[derive(Debug)]
pub struct ImportJob {
    pub path: String,
    pub media_id: String,
    pub lang: String,
    pub ext: String,
    pub content_type: String,
    pub key: String,
}

/// The import that the arguments describe: `path` and `media_id` are
/// required, in that order; `lang` defaults to `es-ES`.
pub fn plan(args: &JobArgs) -> (r: Result<ImportJob, JobError>)
    ensures
        match r {
            Ok(j) => args@.contains_key("path"@) && args@.contains_key("media_id"@) && j.path@
                == args@["path"@] && j.media_id@ == args@["media_id"@] && j.lang@ == arg_or(
                args@,
                "lang"@,
                "es-ES"@,
            ) && j.ext@ == import_extension(j.path@) && j.content_type@ == content_type_for(j.ext@)
                && j.key@ == source_key(j.media_id@, j.lang@, j.ext@),
            Err(e) => (!args@.contains_key("path"@) && e.message@ == "missing path"@) || (
            args@.contains_key("path"@) && !args@.contains_key("media_id"@) && e.message@
                == "missing media_id"@),
        },
{
    let path = required_arg(args, "path", "missing path")?;
    let media_id = required_arg(args, "media_id", "missing media_id")?;
    let lang = arg_or_default(args, "lang", "es-ES");
    let ext = match extension_of(path.as_str()) {
        Some(e) => e,
        None => owned("mp4"),
    };
    let ct = owned(content_type(ext.as_str()));
    let key = source_key_of(media_id.as_str(), lang.as_str(), ext.as_str());
    Ok(ImportJob { path: path.clone(), media_id: media_id.clone(), lang, ext, content_type: ct, key })
}

} // verus!
