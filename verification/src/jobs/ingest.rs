//! Job: scan the media root and index what each title folder already has in
//! the bucket.

use vstd::prelude::*;

use crate::text::owned;

verus! {

/// How many objects a folder's listing reads at most.
pub const LIST_LIMIT: usize = 1000;

/// The bucket prefix of a title folder: `media/<name>/`.
pub fn folder_prefix(name: &str) -> (p: String)
    ensures
        p@ == "media/"@ + name@ + "/"@,
{
    let mut p = owned("media/");
    p.append(name);
    p.append("/");
    p
}

} // verus!
