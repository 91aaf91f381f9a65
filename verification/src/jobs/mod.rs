//! Jobs: their arguments, the choice of runner for a job kind, and the
//! status updates around a run.

pub mod download;
pub mod import;
pub mod ingest;
pub mod probe;
pub mod scrape;
pub mod transcode;
pub mod upload;

use vstd::prelude::*;

use crate::state::{registry_wf, with_status, JobRecord, JobRegistry, JobStatus, status_text};
use crate::text::{owned, str_eq};

verus! {

// ----------------------------------------------------------------------
// Arguments
// ----------------------------------------------------------------------

/// The map that a list of name and value entries stands for: a later entry
/// for a name overrides an earlier one.
pub open spec fn entries_map(es: Seq<(Seq<char>, Seq<char>)>) -> Map<Seq<char>, Seq<char>>
    decreases es.len(),
{
    if es.len() == 0 {
        Map::empty()
    } else {
        entries_map(es.drop_last()).insert(es.last().0, es.last().1)
    }
}

/// An entry, as values.
pub open spec fn entry_view(e: (String, String)) -> (Seq<char>, Seq<char>) {
    (e.0@, e.1@)
}

/// Named string arguments of a job.
#[derive(Clone, Debug)]
pub struct JobArgs {
    entries: Vec<(String, String)>,
}

impl View for JobArgs {
    type V = Map<Seq<char>, Seq<char>>;

    closed spec fn view(&self) -> Map<Seq<char>, Seq<char>> {
        entries_map(self.entries@.map_values(|e: (String, String)| entry_view(e)))
    }
}

proof fn lemma_entries_map_take_other(es: Seq<(Seq<char>, Seq<char>)>, i: int, key: Seq<char>)
    requires
        0 <= i <= es.len(),
        forall|j: int| i <= j < es.len() ==> (#[trigger] es[j]).0 != key,
    ensures
        entries_map(es).contains_key(key) == entries_map(es.take(i)).contains_key(key),
        entries_map(es).contains_key(key) ==> entries_map(es)[key] == entries_map(es.take(i))[key],
    decreases es.len() - i,
{
    if i < es.len() {
        let t = es.take(i + 1);
        assert(t.drop_last() =~= es.take(i));
        assert(t.last() == es[i]);
        lemma_entries_map_take_other(es, i + 1, key);
    } else {
        assert(es.take(i) =~= es);
    }
}

impl JobArgs {
    /// No arguments.
    pub fn new() -> (a: JobArgs)
        ensures
            a@ == Map::<Seq<char>, Seq<char>>::empty(),
    {
        let a = JobArgs { entries: Vec::new() };
        assert(a.entries@.map_values(|e: (String, String)| entry_view(e)) =~= Seq::empty());
        a
    }

    /// Sets argument `name` to `value`, replacing any earlier value.
    pub fn insert(&mut self, name: &str, value: String)
        ensures
            final(self)@ == old(self)@.insert(name@, value@),
    {
        let ghost before = self.entries@.map_values(|e: (String, String)| entry_view(e));
        self.entries.push((owned(name), value));
        assert(self.entries@.map_values(|e: (String, String)| entry_view(e)).drop_last() =~= before);
    }

    /// The value of argument `name`.
    pub fn get(&self, name: &str) -> (r: Option<&String>)
        ensures
            match r {
                Some(v) => self@.contains_key(name@) && v@ == self@[name@],
                None => !self@.contains_key(name@),
            },
    {
        let ghost es = self.entries@.map_values(|e: (String, String)| entry_view(e));
        let mut i = self.entries.len();
        while i > 0
            invariant
                i <= self.entries@.len(),
                es == self.entries@.map_values(|e: (String, String)| entry_view(e)),
                forall|j: int| i <= j < es.len() ==> (#[trigger] es[j]).0 != name@,
            decreases i,
        {
            if str_eq(self.entries[i - 1].0.as_str(), name) {
                proof {
                    let t = es.take(i as int);
                    lemma_entries_map_take_other(es, i as int, name@);
                    assert(t.drop_last() =~= es.take(i - 1));
                    assert(t.last() == es[i - 1]);
                }
                return Some(&self.entries[i - 1].1);
            }
            i = i - 1;
        }
        proof {
            lemma_entries_map_take_other(es, 0, name@);
        }
        None
    }

    /// The entries, in the order they were set; an entry for a name may be
    /// followed by a later one that overrides it.
    pub fn entries(&self) -> (es: &Vec<(String, String)>)
        ensures
            entries_map(es@.map_values(|e: (String, String)| entry_view(e))) == self@,
    {
        &self.entries
    }
}

/// What `serde_json::from_str::<BTreeMap<String, String>>` gives for
/// `text`: `None` where it is not a JSON object whose values are all
/// strings, else the object's members in ascending order of name.
pub uninterp spec fn json_string_entries(text: Seq<char>) -> Option<Seq<(Seq<char>, Seq<char>)>>;

/// `serde_json::from_str` of `text` into a `BTreeMap<String, String>`, whose
/// entries are then handed out in the map's order. Claimed: the outcome is
/// the named one for the text.
#[verifier::external_body]
fn parse_string_map(text: &str) -> (r: Option<Vec<(String, String)>>)
    ensures
        match r {
            None => json_string_entries(text@) is None,
            Some(v) => json_string_entries(text@) == Some(
                v@.map_values(|e: (String, String)| entry_view(e)),
            ),
        },
{
    match serde_json::from_str::<std::collections::BTreeMap<String, String>>(text) {
        Ok(m) => Some(m.into_iter().collect()),
        Err(_) => None,
    }
}

/// The arguments that a job's notes hold: the members of a JSON object of
/// strings; none when there are no notes or they are not such an object.
pub open spec fn notes_args_spec(notes: Option<Seq<char>>) -> Map<Seq<char>, Seq<char>> {
    match notes {
        None => Map::empty(),
        Some(n) => match json_string_entries(n) {
            None => Map::empty(),
            Some(es) => entries_map(es),
        },
    }
}

/// Reads a job's arguments from its notes (a JSON object of strings, as the
/// webhook writes them).
pub fn notes_args(notes: &Option<String>) -> (a: JobArgs)
    ensures
        a@ == notes_args_spec(match notes {
            Some(n) => Some(n@),
            None => None,
        }),
{
    let mut a = JobArgs::new();
    let text = match notes {
        Some(n) => n,
        None => {
            return a;
        },
    };
    let entries = match parse_string_map(text.as_str()) {
        Some(v) => v,
        None => {
            return a;
        },
    };
    let ghost es = entries@.map_values(|e: (String, String)| entry_view(e));
    let n = entries.len();
    for i in 0..n
        invariant
            n == entries@.len(),
            es == entries@.map_values(|e: (String, String)| entry_view(e)),
            a@ == entries_map(es.take(i as int)),
    {
        let name = entries[i].0.as_str();
        let value = owned(entries[i].1.as_str());
        assert(es.take(i + 1).drop_last() =~= es.take(i as int));
        a.insert(name, value);
    }
    assert(es.take(n as int) =~= es);
    a
}

/// A value written into the arguments is what reading that name gives back;
/// other names keep their values.
pub proof fn lemma_args_read_after_write(
    m: Map<Seq<char>, Seq<char>>,
    name: Seq<char>,
    value: Seq<char>,
    other: Seq<char>,
)
    ensures
        m.insert(name, value).contains_key(name) && m.insert(name, value)[name] == value,
        other != name ==> (m.insert(name, value).contains_key(other) == m.contains_key(other)
            && m.insert(name, value)[other] == m[other]),
{
}

/// Why a job failed.
#[derive(Debug)]
pub struct JobError {
    pub message: String,
}

/// A failure with the given message.
pub fn job_error(message: &str) -> (e: JobError)
    ensures
        e.message@ == message@,
{
    JobError { message: owned(message) }
}

/// Reads a required argument, failing with `message` when it is missing.
pub fn required_arg<'a>(args: &'a JobArgs, name: &str, message: &str) -> (r: Result<
    &'a String,
    JobError,
>)
    ensures
        match r {
            Ok(v) => args@.contains_key(name@) && v@ == args@[name@],
            Err(e) => !args@.contains_key(name@) && e.message@ == message@,
        },
{
    match args.get(name) {
        Some(v) => Ok(v),
        None => Err(job_error(message)),
    }
}

/// An optional argument's value, or `fallback`.
pub open spec fn arg_or(args: Map<Seq<char>, Seq<char>>, name: Seq<char>, fallback: Seq<char>) -> Seq<
    char,
> {
    if args.contains_key(name) {
        args[name]
    } else {
        fallback
    }
}

/// An optional argument's value, or `fallback`.
pub fn arg_or_default(args: &JobArgs, name: &str, fallback: &str) -> (s: String)
    ensures
        s@ == arg_or(args@, name@, fallback@),
{
    match args.get(name) {
        Some(v) => v.clone(),
        None => owned(fallback),
    }
}

// ----------------------------------------------------------------------
// Dispatch
// ----------------------------------------------------------------------

/// The runner for a job kind.
#[derive(Clone, Copy, Debug, PartialEq, Eq, Structural)]
pub enum JobKind {
    Probe,
    Transcode,
    Scrape,
    Ingest,
    Import,
    /// A kind that no runner handles; the job fails.
    Unknown,
}

/// The runner that a kind names.
pub open spec fn kind_named(kind: Seq<char>) -> JobKind {
    if kind == "probe"@ {
        JobKind::Probe
    } else if kind == "transcode"@ {
        JobKind::Transcode
    } else if kind == "scrape"@ {
        JobKind::Scrape
    } else if kind == "ingest"@ {
        JobKind::Ingest
    } else if kind == "import"@ {
        JobKind::Import
    } else {
        JobKind::Unknown
    }
}

/// Picks the runner for a job kind: `probe`, `transcode`, `scrape`,
/// `ingest`, `import`; any other kind is unknown.
pub fn job_kind(kind: &str) -> (k: JobKind)
    ensures
        k == kind_named(kind@),
{
    if str_eq(kind, "probe") {
        JobKind::Probe
    } else if str_eq(kind, "transcode") {
        JobKind::Transcode
    } else if str_eq(kind, "scrape") {
        JobKind::Scrape
    } else if str_eq(kind, "ingest") {
        JobKind::Ingest
    } else if str_eq(kind, "import") {
        JobKind::Import
    } else {
        JobKind::Unknown
    }
}

/// The failure of a job whose kind no runner handles.
pub fn unknown_kind(kind: &str) -> (e: JobError)
    ensures
        e.message@ == "unknown job kind: "@ + kind@,
{
    let mut m = owned("unknown job kind: ");
    m.append(kind);
    JobError { message: m }
}

/// Marks job `id` as running, before its runner starts.
pub fn start(registry: &mut JobRegistry, id: u128)
    ensures
        final(registry)@ == with_status(old(registry)@, id, JobStatus::Running),
        registry_wf(final(registry)@),
{
    registry.set_status(id, JobStatus::Running);
}

/// The status a run ends in: done if it succeeded, failed otherwise.
pub open spec fn outcome_status(succeeded: bool) -> JobStatus {
    if succeeded {
        JobStatus::Done
    } else {
        JobStatus::Failed
    }
}

/// Records the end of job `id`'s run, and gives the status text to notify
/// the API with.
pub fn finish(registry: &mut JobRegistry, id: u128, succeeded: bool) -> (s: &'static str)
    ensures
        final(registry)@ == with_status(old(registry)@, id, outcome_status(succeeded)),
        registry_wf(final(registry)@),
        s@ == status_text(outcome_status(succeeded)),
{
    let status = if succeeded {
        JobStatus::Done
    } else {
        JobStatus::Failed
    };
    registry.set_status(id, status);
    status.as_str()
}

/// A run of a filed job ends with the job done or failed, as the run went,
/// whatever it was before; the other jobs are not touched.
pub proof fn lemma_run_ends_terminal(
    m: Map<u128, crate::state::JobRecord>,
    id: u128,
    succeeded: bool,
    other: u128,
)
    requires
        m.contains_key(id),
    ensures
        with_status(with_status(m, id, JobStatus::Running), id, outcome_status(succeeded))[id].status
            == outcome_status(succeeded),
        outcome_status(succeeded) == JobStatus::Done || outcome_status(succeeded)
            == JobStatus::Failed,
        other != id ==> with_status(with_status(m, id, JobStatus::Running), id, outcome_status(
            succeeded,
        )).contains_key(other) == m.contains_key(other),
        other != id && m.contains_key(other) ==> with_status(
            with_status(m, id, JobStatus::Running),
            id,
            outcome_status(succeeded),
        )[other] == m[other],
{
}

/// A scrape job whose media id the scrape run accepts never fails: starting
/// it makes it running, and finishing it with the run's outcome makes it
/// done, so its status is only ever queued, running or done.
pub proof fn lemma_accepted_scrape_job_ends_done(m: Map<u128, JobRecord>, id: u128)
    requires
        m.contains_key(id),
        m[id].kind@ == "scrape"@,
        scrape::scrape_accepts(m[id].media_id@),
    ensures
        with_status(m, id, JobStatus::Running)[id].status == JobStatus::Running,
        with_status(
            with_status(m, id, JobStatus::Running),
            id,
            outcome_status(scrape::scrape_accepts(m[id].media_id@)),
        )[id].status == JobStatus::Done,
{
}

} // verus!
