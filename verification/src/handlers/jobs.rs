//! `POST /jobs` (submit a job) and `GET /jobs/:id` (a job's state).

use vstd::prelude::*;

use crate::error::{AppError, AppErrorView};
use crate::state::{
    clock_now, is_random_uuid, new_job_id, job_id_text, lookup, parse_uuid, registry_wf, status_text, uuid_parsed, uuid_text, JobRecord,
    JobRegistry, JobStatus,
};
use crate::text::owned;

verus! {

/// The body of a job submission.
#[derive(Debug)]
pub struct SubmitRequest {
    pub kind: String,
    pub media_id: String,
    pub notes: Option<String>,
}

/// The answer to an accepted submission.
#[derive(Debug)]
pub struct SubmitResponse {
    pub job_id: String,
    pub status: String,
}

/// A job's state, as answered by the status endpoint.
#[derive(Debug)]
pub struct JobView {
    pub job_id: String,
    pub kind: String,
    pub media_id: String,
    pub status: String,
}

/// A job's state, as values.
pub struct JobViewSpec {
    pub job_id: Seq<char>,
    pub kind: Seq<char>,
    pub media_id: Seq<char>,
    pub status: Seq<char>,
}

impl View for JobView {
    type V = JobViewSpec;

    open spec fn view(&self) -> JobViewSpec {
        JobViewSpec {
            job_id: self.job_id@,
            kind: self.kind@,
            media_id: self.media_id@,
            status: self.status@,
        }
    }
}

/// The record that a valid submission files.
pub open spec fn submitted_record(id: u128, req: SubmitRequest, now: i64) -> JobRecord {
    JobRecord {
        id,
        kind: req.kind,
        media_id: req.media_id,
        status: JobStatus::Queued,
        notes: req.notes,
        created_at: now,
    }
}

/// A submission is refused when its kind or its media id is empty.
pub open spec fn submission_refused(req: SubmitRequest) -> bool {
    req.kind@.len() == 0 || req.media_id@.len() == 0
}

/// Files a new queued job under `id`, created at `now`, and answers with
/// its id and `queued`. A request with an empty kind or media id is refused
/// and files nothing.
pub fn submit(registry: &mut JobRegistry, id: u128, now: i64, req: SubmitRequest) -> (r: Result<
    SubmitResponse,
    AppError,
>)
    ensures
        registry_wf(final(registry)@),
        match r {
            Ok(resp) => !submission_refused(req) && final(registry)@ == old(registry)@.insert(
                id,
                submitted_record(id, req, now),
            ) && resp.job_id@ == uuid_text(id) && resp.status@ == "queued"@,
            Err(e) => submission_refused(req) && final(registry)@ == old(registry)@ && e@
                == AppErrorView::BadRequest("kind and media_id required"@),
        },
{
    proof {
        use_type_invariant(&*registry);
    }
    if req.kind.as_str().is_empty() || req.media_id.as_str().is_empty() {
        return Err(AppError::BadRequest(owned("kind and media_id required")));
    }
    let record = JobRecord {
        id,
        kind: req.kind,
        media_id: req.media_id,
        status: JobStatus::Queued,
        notes: req.notes,
        created_at: now,
    };
    registry.insert(record);
    Ok(SubmitResponse { job_id: job_id_text(id), status: owned("queued") })
}

/// Submits a job under a fresh random id, created now; answers with the id
/// too. A request with an empty kind or media id is refused first, and files
/// nothing.
pub fn submit_job(registry: &mut JobRegistry, req: SubmitRequest) -> (r: Result<
    (u128, SubmitResponse),
    AppError,
>)
    ensures
        registry_wf(final(registry)@),
        match r {
            Ok((id, resp)) => !submission_refused(req) && is_random_uuid(id) && (exists|now: i64|
                final(registry)@ == old(registry)@.insert(id, #[trigger] submitted_record(id, req, now)))
                && resp.job_id@ == uuid_text(id) && resp.status@ == "queued"@,
            Err(e) => submission_refused(req) && final(registry)@ == old(registry)@ && e@
                == AppErrorView::BadRequest("kind and media_id required"@),
        },
{
    proof {
        use_type_invariant(&*registry);
    }
    if req.kind.as_str().is_empty() || req.media_id.as_str().is_empty() {
        return Err(AppError::BadRequest(owned("kind and media_id required")));
    }
    let id = new_job_id();
    let now = clock_now();
    let ghost r0 = req;
    match submit(registry, id, now, req) {
        Ok(resp) => {
            assert(final(registry)@ == old(registry)@.insert(id, submitted_record(id, r0, now)));
            Ok((id, resp))
        },
        Err(e) => Err(e),
    }
}

/// What the status endpoint answers for the path segment `text`, given the
/// UUID value it parses to (if any).
pub open spec fn job_status_spec(m: Map<u128, JobRecord>, parsed: Option<u128>, text: Seq<char>) -> Result<
    JobViewSpec,
    AppErrorView,
> {
    match parsed {
        None => Err(AppErrorView::BadRequest("invalid uuid"@)),
        Some(id) => match lookup(m, id) {
            None => Err(AppErrorView::NotFound("job "@ + text)),
            Some(rec) => Ok(
                JobViewSpec {
                    job_id: uuid_text(rec.id),
                    kind: rec.kind@,
                    media_id: rec.media_id@,
                    status: status_text(rec.status),
                },
            ),
        },
    }
}

/// A status answer, as a value.
pub open spec fn status_answer(r: Result<JobView, AppError>) -> Result<JobViewSpec, AppErrorView> {
    match r {
        Ok(v) => Ok(v@),
        Err(e) => Err(e@),
    }
}

/// The state of the job whose id `text` names: refused if `text` is not a
/// UUID, not found if no such job was submitted.
pub fn status(registry: &JobRegistry, text: &str) -> (r: Result<JobView, AppError>)
    ensures
        status_answer(r) == job_status_spec(registry@, uuid_parsed(text@), text@),
        forall|n: u128| #[trigger] uuid_text(n) == text@ ==> status_answer(r) == job_status_spec(
            registry@,
            Some(n),
            text@,
        ),
{
    let id = match parse_uuid(text) {
        None => {
            return Err(AppError::BadRequest(owned("invalid uuid")));
        },
        Some(id) => id,
    };
    match registry.get(id) {
        None => {
            let mut msg = owned("job ");
            msg.append(text);
            Err(AppError::NotFound(msg))
        },
        Some(rec) => Ok(
            JobView {
                job_id: job_id_text(rec.id),
                kind: rec.kind.clone(),
                media_id: rec.media_id.clone(),
                status: owned(rec.status.as_str()),
            },
        ),
    }
}

/// A job accepted by the submit endpoint is found by the status endpoint
/// under the id it was answered with, queued, with its kind and media id.
pub proof fn lemma_submitted_job_is_found(
    m: Map<u128, JobRecord>,
    id: u128,
    req: SubmitRequest,
    now: i64,
)
    requires
        !submission_refused(req),
    ensures
        job_status_spec(m.insert(id, submitted_record(id, req, now)), Some(id), uuid_text(id))
            == Ok::<JobViewSpec, AppErrorView>(
            JobViewSpec {
                job_id: uuid_text(id),
                kind: req.kind@,
                media_id: req.media_id@,
                status: "queued"@,
            },
        ),
{
}

} // verus!
