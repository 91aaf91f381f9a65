//! Job: upload a local file to the bucket (a file that arrived on a shared
//! volume, or one found by the ingest scan).

use vstd::prelude::*;

use super::{required_arg, JobArgs, JobError};

verus! {

/// What an upload reads and writes: the local file and the object key.
#[derive(Debug)]
pub struct UploadJob {
    pub path: String,
    pub key: String,
}

/// The upload that the arguments describe; `path` and `key` are required,
/// in that order.
pub fn plan(args: &JobArgs) -> (r: Result<UploadJob, JobError>)
    ensures
        match r {
            Ok(j) => args@.contains_key("path"@) && args@.contains_key("key"@) && j.path@
                == args@["path"@] && j.key@ == args@["key"@],
            Err(e) => (!args@.contains_key("path"@) && e.message@ == "missing path"@) || (
            args@.contains_key("path"@) && !args@.contains_key("key"@) && e.message@
                == "missing key"@),
        },
{
    let path = required_arg(args, "path", "missing path")?;
    let key = required_arg(args, "key", "missing key")?;
    Ok(UploadJob { path: path.clone(), key: key.clone() })
}

} // verus!
