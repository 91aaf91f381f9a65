//! Job: transcode a title's source to multi-bitrate HLS with `ffmpeg`.

use vstd::prelude::*;

use crate::text::owned;

verus! {

/// The paths of a transcode: the source file, the output directory and the
/// playlist inside it.
#[derive(Debug)]
pub struct HlsPaths {
    pub input: String,
    pub output_dir: String,
    pub playlist: String,
}

/// The source `<root>/<id>/source.mkv`, the output directory
/// `<root>/<id>/hls`, and the playlist `<root>/<id>/hls/index.m3u8`.
pub fn hls_paths(media_root: &str, media_id: &str) -> (p: HlsPaths)
    ensures
        p.input@ == crate::jobs::probe::source_path_spec(media_root@, media_id@),
        p.output_dir@ == media_root@ + "/"@ + media_id@ + "/hls"@,
        p.playlist@ == p.output_dir@ + "/index.m3u8"@,
{
    let input = crate::jobs::probe::source_path(media_root, media_id);
    let mut output_dir = owned(media_root);
    output_dir.append("/");
    output_dir.append(media_id);
    output_dir.append("/hls");
    let mut playlist = owned(output_dir.as_str());
    playlist.append("/index.m3u8");
    HlsPaths { input, output_dir, playlist }
}

} // verus!
