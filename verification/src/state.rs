//! Job state: the job status machine, job records, the in-memory registry
//! of submitted jobs, and the text form of job ids (UUIDs).

use std::collections::HashMap;

use vstd::prelude::*;

use crate::storage::s3::amz_dates_spec;
use crate::text::{append_chars, hex_lower_char, slice_chars, string_of};

verus! {

broadcast use vstd::std_specs::hash::group_hash_axioms;

/// Where a job stands.
#[derive(Clone, Copy, Debug, PartialEq, Eq, Structural)]
pub enum JobStatus {
    Queued,
    Running,
    Done,
    Failed,
}

/// The text of a status in responses and notifications.
pub open spec fn status_text(s: JobStatus) -> Seq<char> {
    match s {
        JobStatus::Queued => "queued"@,
        JobStatus::Running => "running"@,
        JobStatus::Done => "done"@,
        JobStatus::Failed => "failed"@,
    }
}

impl JobStatus {
    /// The text of the status: `queued`, `running`, `done` or `failed`.
    pub fn as_str(&self) -> (s: &'static str)
        ensures
            s@ == status_text(*self),
    {
        match self {
            JobStatus::Queued => "queued",
            JobStatus::Running => "running",
            JobStatus::Done => "done",
            JobStatus::Failed => "failed",
        }
    }
}

/// A submitted job. The id is the 128-bit value of the job's UUID; the
/// creation time is in seconds since the Unix epoch.
#[derive(Clone, Debug)]
pub struct JobRecord {
    pub id: u128,
    pub kind: String,
    pub media_id: String,
    pub status: JobStatus,
    pub notes: Option<String>,
    pub created_at: i64,
}

impl JobRecord {
    /// A new queued job without notes, created at `now`.
    pub fn new(id: u128, kind: &str, media_id: &str, now: i64) -> (r: JobRecord)
        ensures
            r.id == id,
            r.kind@ == kind@,
            r.media_id@ == media_id@,
            r.status == JobStatus::Queued,
            r.notes is None,
            r.created_at == now,
    {
        JobRecord {
            id,
            kind: kind.to_string(),
            media_id: media_id.to_string(),
            status: JobStatus::Queued,
            notes: None,
            created_at: now,
        }
    }
}

/// The light form of a job record, for quick inserts.
#[derive(Clone, Debug)]
pub struct JobRecordStub {
    pub id: u128,
    pub kind: String,
    pub media_id: String,
    pub notes: Option<String>,
}

// ----------------------------------------------------------------------
// Job ids
// ----------------------------------------------------------------------

/// The last `count` hexadecimal digits of `n`, most significant first.
pub open spec fn hex_digits(n: nat, count: nat) -> Seq<char>
    decreases count,
{
    if count == 0 {
        Seq::empty()
    } else {
        hex_digits(n / 16, (count - 1) as nat).push(hex_lower_char((n % 16) as int))
    }
}

/// The hyphenated lower-case text of a UUID with value `id` (8-4-4-4-12 hex
/// digits, most significant first), the way the `uuid` crate displays it.
pub open spec fn uuid_text(id: u128) -> Seq<char> {
    let h = hex_digits(id as nat, 32);
    h.subrange(0, 8) + "-"@ + h.subrange(8, 12) + "-"@ + h.subrange(12, 16) + "-"@ + h.subrange(
        16,
        20,
    ) + "-"@ + h.subrange(20, 32)
}

fn push_hex_digits(out: &mut Vec<char>, n: u128, count: usize)
    ensures
        final(out)@ == old(out)@ + hex_digits(n as nat, count as nat),
    decreases count,
{
    if count > 0 {
        push_hex_digits(out, n / 16, count - 1);
        let d = (n % 16) as u8;
        let c = if d < 10 {
            (d + 48) as char
        } else {
            (d + 87) as char
        };
        out.push(c);
        assert(old(out)@ + hex_digits(n as nat, count as nat) =~= old(out)@ + hex_digits(
            (n / 16) as nat,
            (count - 1) as nat,
        ) + seq![hex_lower_char((n % 16) as int)]);
    } else {
        assert(old(out)@ + hex_digits(n as nat, 0) =~= old(out)@);
    }
}

proof fn lemma_hex_digits_len(n: nat, count: nat)
    ensures
        hex_digits(n, count).len() == count,
    decreases count,
{
    if count > 0 {
        lemma_hex_digits_len(n / 16, (count - 1) as nat);
    }
}

/// The text of a job id: the hyphenated lower-case form of its UUID.
pub fn job_id_text(id: u128) -> (s: String)
    ensures
        s@ == uuid_text(id),
{
    let mut h: Vec<char> = Vec::new();
    push_hex_digits(&mut h, id, 32);
    assert(h@ =~= hex_digits(id as nat, 32));
    proof {
        lemma_hex_digits_len(id as nat, 32);
    }
    let mut s = string_of(&slice_chars(&h, 0, 8));
    s.append("-");
    append_chars(&mut s, &slice_chars(&h, 8, 12));
    s.append("-");
    append_chars(&mut s, &slice_chars(&h, 12, 16));
    s.append("-");
    append_chars(&mut s, &slice_chars(&h, 16, 20));
    s.append("-");
    append_chars(&mut s, &slice_chars(&h, 20, 32));
    s
}

/// chrono's `Utc::now().timestamp()`: the clock, in seconds since the Unix
/// epoch. Claimed: the value is a time that chrono can date and render as an
/// `X-Amz-Date` and a scope date (`Utc::now` itself builds its value with
/// `DateTime::from_timestamp` and unwraps it, and neither format fails on a
/// date chrono holds); nothing is claimed of which time it is. `Utc::now`
/// panics where the system clock reads before 1970, which no argument can
/// rule out.
#[verifier::external_body]
pub(crate) fn clock_now() -> (t: i64)
    ensures
        amz_dates_spec(t) is Some,
{
    chrono::Utc::now().timestamp()
}

/// `id` is the value of a random (version 4, RFC 4122 variant) UUID.
pub open spec fn is_random_uuid(id: u128) -> bool {
    (id >> 76u128) & 0xfu128 == 4 && (id >> 62u128) & 3u128 == 2
}

/// `uuid::Uuid::new_v4().as_u128()`: a fresh random job id. Claimed: its
/// version nibble is 4 and its variant bits are `10` (the source masks and
/// sets exactly those bits of a random number); nothing else. It panics
/// where the system's random source fails, which no argument can rule out.
#[verifier::external_body]
pub(crate) fn new_job_id() -> (id: u128)
    ensures
        is_random_uuid(id),
{
    uuid::Uuid::new_v4().as_u128()
}

/// The UUID value that `uuid::Uuid::parse_str` reads from `s`, if it reads
/// one.
pub uninterp spec fn uuid_parsed(s: Seq<char>) -> Option<u128>;

/// `uuid::Uuid::parse_str`, then `as_u128` of the result. Claimed: the
/// result is the named value for the text; and the hyphenated form of a
/// UUID parses back to it (the parser accepts the 36-character hyphenated
/// form, and `as_u128` is the inverse of `from_u128`).
#[verifier::external_body]
pub(crate) fn parse_uuid(s: &str) -> (r: Option<u128>)
    ensures
        r == uuid_parsed(s@),
        forall|n: u128| #[trigger] uuid_text(n) == s@ ==> r == Some(n),
{
    match uuid::Uuid::parse_str(s) {
        Ok(u) => Some(u.as_u128()),
        Err(_) => None,
    }
}

// ----------------------------------------------------------------------
// The registry
// ----------------------------------------------------------------------

/// The record that `id` maps to, if any.
pub open spec fn lookup(m: Map<u128, JobRecord>, id: u128) -> Option<JobRecord> {
    if m.contains_key(id) {
        Some(m[id])
    } else {
        None
    }
}

/// `m` after setting the status of job `id`, if it is there.
pub open spec fn with_status(m: Map<u128, JobRecord>, id: u128, status: JobStatus) -> Map<
    u128,
    JobRecord,
> {
    if m.contains_key(id) {
        m.insert(id, JobRecord { status, ..m[id] })
    } else {
        m
    }
}

/// Every record is filed under its own id.
pub open spec fn registry_wf(m: Map<u128, JobRecord>) -> bool {
    forall|k: u128| #[trigger] m.contains_key(k) ==> m[k].id == k
}

/// The submitted jobs, by id.
pub struct JobRegistry {
    jobs: HashMap<u128, JobRecord>,
}

impl View for JobRegistry {
    type V = Map<u128, JobRecord>;

    closed spec fn view(&self) -> Map<u128, JobRecord> {
        self.jobs@
    }
}

impl JobRegistry {
    /// Every record is filed under its own id, at all times.
    #[verifier::type_invariant]
    pub open spec fn inv(&self) -> bool {
        registry_wf(self@)
    }

    /// An empty registry.
    pub fn new() -> (r: JobRegistry)
        ensures
            r@ == Map::<u128, JobRecord>::empty(),
            registry_wf(r@),
    {
        JobRegistry { jobs: HashMap::new() }
    }

    /// The number of jobs.
    pub fn len(&self) -> (n: usize)
        ensures
            n == self@.len(),
    {
        self.jobs.len()
    }

    /// Files `rec` under its id, replacing any job with the same id.
    pub fn insert(&mut self, rec: JobRecord)
        ensures
            final(self)@ == old(self)@.insert(rec.id, rec),
            registry_wf(final(self)@),
    {
        proof {
            use_type_invariant(&*self);
        }
        let id = rec.id;
        let mut jobs: HashMap<u128, JobRecord> = HashMap::new();
        std::mem::swap(&mut jobs, &mut self.jobs);
        jobs.insert(id, rec);
        self.jobs = jobs;
    }

    /// The job filed under `id`.
    pub fn get(&self, id: u128) -> (r: Option<&JobRecord>)
        ensures
            match lookup(self@, id) {
                Some(rec) => r matches Some(x) && *x == rec,
                None => r is None,
            },
    {
        self.jobs.get(&id)
    }

    /// Sets the status of job `id`; does nothing if there is no such job.
    pub fn set_status(&mut self, id: u128, status: JobStatus)
        ensures
            final(self)@ == with_status(old(self)@, id, status),
            registry_wf(final(self)@),
    {
        proof {
            use_type_invariant(&*self);
        }
        let mut jobs: HashMap<u128, JobRecord> = HashMap::new();
        std::mem::swap(&mut jobs, &mut self.jobs);
        match jobs.remove(&id) {
            Some(mut rec) => {
                rec.status = status;
                jobs.insert(id, rec);
                assert(jobs@ =~= with_status(old(self)@, id, status));
            },
            None => {
                assert(jobs@ =~= old(self)@);
            },
        }
        self.jobs = jobs;
    }
}

/// A job filed in the registry is what a lookup of its id gives back, and
/// filing it leaves every other id as it was.
pub proof fn lemma_lookup_after_insert(m: Map<u128, JobRecord>, rec: JobRecord, id: u128)
    ensures
        lookup(m.insert(rec.id, rec), id) == if id == rec.id {
            Some(rec)
        } else {
            lookup(m, id)
        },
{
}

/// Setting a job's status changes that field of that job and nothing else:
/// every other job, and every other field, stays as it was; an unknown id
/// changes nothing.
pub proof fn lemma_set_status_changes_only_status(
    m: Map<u128, JobRecord>,
    id: u128,
    status: JobStatus,
    other: u128,
)
    ensures
        lookup(with_status(m, id, status), other) == if other == id && m.contains_key(id) {
            Some(JobRecord { status, ..m[id] })
        } else {
            lookup(m, other)
        },
        with_status(m, id, status).dom() == m.dom(),
{
    assert(with_status(m, id, status).dom() =~= m.dom());
}

/// Setting a status twice keeps only the second.
pub proof fn lemma_set_status_last_wins(
    m: Map<u128, JobRecord>,
    id: u128,
    first: JobStatus,
    second: JobStatus,
)
    ensures
        with_status(with_status(m, id, first), id, second) == with_status(m, id, second),
{
    if m.contains_key(id) {
        assert(with_status(with_status(m, id, first), id, second) =~= with_status(m, id, second));
    }
}

} // verus!
