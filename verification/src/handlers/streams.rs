//! `POST /streams/notify`: the API's notice that a new id is ready to be
//! catalogued.

use vstd::prelude::*;

use crate::error::{AppError, AppErrorView};
use crate::text::owned;

verus! {

/// The notice's body.
#[derive(Debug)]
pub struct NotifyRequest {
    pub media_id: String,
}

/// Accepts a notice that names a media id; refuses one whose media id is
/// empty.
pub fn notify(req: &NotifyRequest) -> (r: Result<(), AppError>)
    ensures
        r is Ok <==> req.media_id@.len() > 0,
        r matches Err(e) ==> e@ == AppErrorView::BadRequest("media_id required"@),
{
    if req.media_id.as_str().is_empty() {
        return Err(AppError::BadRequest(owned("media_id required")));
    }
    Ok(())
}

} // verus!
