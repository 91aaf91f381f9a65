//! Job: metadata scraping. Until a metadata provider is wired in, the run
//! checks that the media id has a plausible shape, to keep junk jobs out.

use vstd::prelude::*;

use super::JobError;
use crate::text::owned;

verus! {

/// A media id that a scrape run accepts: at least three bytes long (UTF-8).
pub open spec fn scrape_accepts(media_id: Seq<char>) -> bool {
    vstd::utf8::encode_utf8(media_id).len() >= 3
}

/// Refuses a media id shorter than three bytes (UTF-8), with
/// `invalid media_id: ` and the id.
pub fn run(media_id: &str) -> (r: Result<(), JobError>)
    ensures
        r is Ok <==> scrape_accepts(media_id@),
        r matches Err(e) ==> e.message@ == "invalid media_id: "@ + media_id@,
{
    if media_id.as_bytes().len() < 3 {
        let mut m = owned("invalid media_id: ");
        m.append(media_id);
        return Err(JobError { message: m });
    }
    Ok(())
}

} // verus!
