//! Job: `ffprobe` on the media file of a title, assumed to be
//! `${MEDIA_ROOT}/${media_id}/source.mkv`.

use vstd::prelude::*;

use super::JobError;
use crate::text::owned;

verus! {

/// The source file of a title under the media root.
pub open spec fn source_path_spec(media_root: Seq<char>, media_id: Seq<char>) -> Seq<char> {
    media_root + "/"@ + media_id + "/source.mkv"@
}

/// The source file of a title under the media root.
pub fn source_path(media_root: &str, media_id: &str) -> (p: String)
    ensures
        p@ == source_path_spec(media_root@, media_id@),
{
    let mut p = owned(media_root);
    p.append("/");
    p.append(media_id);
    p.append("/source.mkv");
    p
}

/// How an `ffprobe` run went.
#[derive(Debug)]
pub enum ProbeRun {
    /// `ffprobe` could not be started (not installed yet).
    NotAvailable,
    /// `ffprobe` ran and exited, successfully or not, with this standard
    /// error output.
    Exited { success: bool, stderr: String },
}

/// The result of a probe: a failed exit fails the job with
/// `ffprobe failed: ` and the error output; a missing `ffprobe` is skipped.
pub fn outcome(run: ProbeRun) -> (r: Result<(), JobError>)
    ensures
        match run {
            ProbeRun::NotAvailable => r is Ok,
            ProbeRun::Exited { success, stderr } => if success {
                r is Ok
            } else {
                r matches Err(e) && e.message@ == "ffprobe failed: "@ + stderr@
            },
        },
{
    match run {
        ProbeRun::NotAvailable => Ok(()),
        ProbeRun::Exited { success, stderr } => {
            if success {
                Ok(())
            } else {
                let mut m = owned("ffprobe failed: ");
                m.append(stderr.as_str());
                Err(JobError { message: m })
            }
        },
    }
}

} // verus!
