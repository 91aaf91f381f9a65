use movie_worker::handlers::jobs::{status, submit, submit_job, SubmitRequest};
use movie_worker::jobs::download::{self, extension};
use movie_worker::jobs::import::{self, content_type};
use movie_worker::jobs::ingest::folder_prefix;
use movie_worker::jobs::probe::{self, outcome, source_path, ProbeRun};
use movie_worker::jobs::transcode::hls_paths;
use movie_worker::jobs::{finish, job_kind, notes_args, scrape, start, unknown_kind, upload, JobArgs, JobKind};
use movie_worker::state::{job_id_text, JobRecord, JobRegistry, JobStatus};

const ID: u128 = 0x550e8400_e29b_41d4_a716_446655440000;

fn req(kind: &str, media_id: &str) -> SubmitRequest {
    SubmitRequest { kind: kind.into(), media_id: media_id.into(), notes: Some("n".into()) }
}

#[test]
fn status_texts() {
    assert_eq!(JobStatus::Queued.as_str(), "queued");
    assert_eq!(JobStatus::Running.as_str(), "running");
    assert_eq!(JobStatus::Done.as_str(), "done");
    assert_eq!(JobStatus::Failed.as_str(), "failed");
}

#[test]
fn new_record_is_queued() {
    let r = JobRecord::new(7, "probe", "tmdb:1", 100);
    assert_eq!(r.id, 7);
    assert_eq!(r.kind, "probe");
    assert_eq!(r.media_id, "tmdb:1");
    assert_eq!(r.status, JobStatus::Queued);
    assert_eq!(r.notes, None);
    assert_eq!(r.created_at, 100);
}

#[test]
fn job_id_text_is_the_uuid_display() {
    assert_eq!(job_id_text(ID), "550e8400-e29b-41d4-a716-446655440000");
    for n in [0u128, 1, u128::MAX, 0x0123456789abcdef0fedcba987654321] {
        assert_eq!(job_id_text(n), uuid::Uuid::from_u128(n).to_string());
    }
}

#[test]
fn registry_reads_what_was_written() {
    let mut reg = JobRegistry::new();
    assert_eq!(reg.len(), 0);
    reg.insert(JobRecord::new(1, "probe", "m1", 0));
    reg.insert(JobRecord::new(2, "scrape", "m2", 0));
    assert_eq!(reg.len(), 2);
    assert_eq!(reg.get(1).unwrap().media_id, "m1");
    assert_eq!(reg.get(2).unwrap().kind, "scrape");
    assert!(reg.get(3).is_none());
    reg.insert(JobRecord::new(1, "ingest", "m3", 5));
    assert_eq!(reg.len(), 2);
    assert_eq!(reg.get(1).unwrap().kind, "ingest");
}

#[test]
fn set_status_touches_only_that_job() {
    let mut reg = JobRegistry::new();
    reg.insert(JobRecord::new(1, "probe", "m1", 3));
    reg.insert(JobRecord::new(2, "probe", "m2", 4));
    reg.set_status(1, JobStatus::Running);
    let r1 = reg.get(1).unwrap();
    assert_eq!(r1.status, JobStatus::Running);
    assert_eq!((r1.kind.as_str(), r1.media_id.as_str(), r1.created_at), ("probe", "m1", 3));
    assert_eq!(reg.get(2).unwrap().status, JobStatus::Queued);
    reg.set_status(9, JobStatus::Done);
    assert!(reg.get(9).is_none());
    assert_eq!(reg.len(), 2);
    reg.set_status(1, JobStatus::Done);
    reg.set_status(1, JobStatus::Failed);
    assert_eq!(reg.get(1).unwrap().status, JobStatus::Failed);
}

#[test]
fn submit_files_a_queued_job_that_status_finds() {
    let mut reg = JobRegistry::new();
    let resp = submit(&mut reg, ID, 42, req("probe", "tmdb:603")).unwrap();
    assert_eq!(resp.job_id, "550e8400-e29b-41d4-a716-446655440000");
    assert_eq!(resp.status, "queued");
    let rec = reg.get(ID).unwrap();
    assert_eq!(rec.created_at, 42);
    assert_eq!(rec.notes.as_deref(), Some("n"));
    let v = status(&reg, &resp.job_id).unwrap();
    assert_eq!(v.job_id, resp.job_id);
    assert_eq!(v.kind, "probe");
    assert_eq!(v.media_id, "tmdb:603");
    assert_eq!(v.status, "queued");
    // Upper-case and braced forms name the same job.
    let v = status(&reg, "{550E8400-E29B-41D4-A716-446655440000}").unwrap();
    assert_eq!(v.job_id, resp.job_id);
}

#[test]
fn submit_refuses_empty_fields() {
    let mut reg = JobRegistry::new();
    for r in [req("", "m"), req("probe", ""), req("", "")] {
        let e = submit(&mut reg, ID, 0, r).unwrap_err();
        assert_eq!(e.status_code(), 400);
        assert_eq!(e.message(), "kind and media_id required");
    }
    assert_eq!(reg.len(), 0);
}

#[test]
fn status_errors() {
    let reg = JobRegistry::new();
    let e = status(&reg, "not-a-uuid").unwrap_err();
    assert_eq!((e.status_code(), e.message()), (400, "invalid uuid"));
    let e = status(&reg, "550e8400-e29b-41d4-a716-446655440000").unwrap_err();
    assert_eq!((e.status_code(), e.message()), (404, "job 550e8400-e29b-41d4-a716-446655440000"));
}

#[test]
fn job_kinds() {
    assert_eq!(job_kind("probe"), JobKind::Probe);
    assert_eq!(job_kind("transcode"), JobKind::Transcode);
    assert_eq!(job_kind("scrape"), JobKind::Scrape);
    assert_eq!(job_kind("ingest"), JobKind::Ingest);
    assert_eq!(job_kind("import"), JobKind::Import);
    assert_eq!(job_kind("download"), JobKind::Unknown);
    assert_eq!(job_kind("Probe"), JobKind::Unknown);
    assert_eq!(unknown_kind("import").message, "unknown job kind: import");
}

#[test]
fn a_run_ends_done_or_failed() {
    let mut reg = JobRegistry::new();
    reg.insert(JobRecord::new(1, "probe", "m", 0));
    reg.insert(JobRecord::new(2, "probe", "m", 0));
    start(&mut reg, 1);
    assert_eq!(reg.get(1).unwrap().status, JobStatus::Running);
    assert_eq!(finish(&mut reg, 1, true), "done");
    assert_eq!(reg.get(1).unwrap().status, JobStatus::Done);
    start(&mut reg, 2);
    assert_eq!(finish(&mut reg, 2, false), "failed");
    assert_eq!(reg.get(2).unwrap().status, JobStatus::Failed);
    // An unfiled job (an import started by a webhook) still gets a text.
    assert_eq!(finish(&mut reg, 3, false), "failed");
    assert!(reg.get(3).is_none());
}

#[test]
fn scrape_checks_the_media_id_length_in_bytes() {
    assert!(scrape::run("tmdb:1").is_ok());
    assert!(scrape::run("abc").is_ok());
    assert_eq!(scrape::run("ab").unwrap_err().message, "invalid media_id: ab");
    assert_eq!(scrape::run("").unwrap_err().message, "invalid media_id: ");
    assert!(scrape::run("é1").is_ok());
}

#[test]
fn probe_and_transcode_paths() {
    assert_eq!(source_path("/media", "603"), "/media/603/source.mkv");
    let p = hls_paths("/media", "603");
    assert_eq!(p.input, "/media/603/source.mkv");
    assert_eq!(p.output_dir, "/media/603/hls");
    assert_eq!(p.playlist, "/media/603/hls/index.m3u8");
    assert_eq!(folder_prefix("Heat (1995)"), "media/Heat (1995)/");
}

#[test]
fn probe_outcomes() {
    assert!(outcome(ProbeRun::NotAvailable).is_ok());
    assert!(outcome(ProbeRun::Exited { success: true, stderr: String::new() }).is_ok());
    let e = outcome(ProbeRun::Exited { success: false, stderr: "bad file".into() }).unwrap_err();
    assert_eq!(e.message, "ffprobe failed: bad file");
    let _ = probe::source_path;
}

#[test]
fn job_args_read_after_write() {
    let mut a = JobArgs::new();
    assert!(a.get("path").is_none());
    a.insert("path", "/a".into());
    a.insert("key", "k".into());
    a.insert("path", "/b".into());
    assert_eq!(a.get("path").map(String::as_str), Some("/b"));
    assert_eq!(a.get("key").map(String::as_str), Some("k"));
    assert!(a.get("lang").is_none());
    assert_eq!(a.entries().len(), 3);
}

#[test]
fn download_extension() {
    assert_eq!(extension("http://x/movie.mkv"), "mkv");
    assert_eq!(extension("http://x/movie.MP4"), "MP4");
    assert_eq!(extension("http://x/movie.webm2x"), "mp4");
    assert_eq!(extension("http://x/movie.m-v"), "mp4");
    assert_eq!(extension("http://x/movie"), "mp4");
    assert_eq!(extension("abc"), "abc");
    assert_eq!(extension("x."), "");
    assert_eq!(extension("x.é"), "mp4");
}

fn args(pairs: &[(&str, &str)]) -> JobArgs {
    let mut a = JobArgs::new();
    for (k, v) in pairs {
        a.insert(k, v.to_string());
    }
    a
}

#[test]
fn download_plan() {
    let j = download::plan(&args(&[("media_id", "tmdb:1"), ("source_url", "http://x/f.mkv")])).unwrap();
    assert_eq!(j.lang, "es-ES");
    assert_eq!(j.key, "media/tmdb:1/es-ES/source.mkv");
    let j = download::plan(&args(&[("media_id", "m"), ("source_url", "u"), ("lang", "en-US")])).unwrap();
    assert_eq!(j.key, "media/m/en-US/source.u");
    assert_eq!(download::plan(&args(&[("source_url", "u")])).unwrap_err().message, "missing media_id");
    assert_eq!(download::plan(&args(&[("media_id", "m")])).unwrap_err().message, "missing source_url");
    assert_eq!(download::plan(&args(&[])).unwrap_err().message, "missing media_id");
}

#[test]
fn import_plan() {
    let j = import::plan(&args(&[("path", "/movies/Heat (1995)/heat.mkv"), ("media_id", "tmdb:949")])).unwrap();
    assert_eq!(j.ext, "mkv");
    assert_eq!(j.content_type, "video/x-matroska");
    assert_eq!(j.key, "media/tmdb:949/es-ES/source.mkv");
    let j = import::plan(&args(&[("path", "/x/noext"), ("media_id", "m"), ("lang", "en")])).unwrap();
    assert_eq!(j.ext, "mp4");
    assert_eq!(j.content_type, "video/mp4");
    assert_eq!(j.key, "media/m/en/source.mp4");
    let j = import::plan(&args(&[("path", "/x/.hidden"), ("media_id", "m")])).unwrap();
    assert_eq!(j.ext, "mp4");
    assert_eq!(import::plan(&args(&[("media_id", "m")])).unwrap_err().message, "missing path");
    assert_eq!(import::plan(&args(&[("path", "p")])).unwrap_err().message, "missing media_id");
}

#[test]
fn content_types() {
    assert_eq!(content_type("mkv"), "video/x-matroska");
    assert_eq!(content_type("mp4"), "video/mp4");
    assert_eq!(content_type("avi"), "video/x-msvideo");
    assert_eq!(content_type("MKV"), "application/octet-stream");
    assert_eq!(content_type(""), "application/octet-stream");
}

#[test]
fn upload_plan() {
    let j = upload::plan(&args(&[("path", "/a"), ("key", "k")])).unwrap();
    assert_eq!((j.path.as_str(), j.key.as_str()), ("/a", "k"));
    assert_eq!(upload::plan(&args(&[("key", "k")])).unwrap_err().message, "missing path");
    assert_eq!(upload::plan(&args(&[("path", "p")])).unwrap_err().message, "missing key");
}

#[test]
fn submit_job_uses_a_random_uuid() {
    let mut reg = JobRegistry::new();
    let (id, resp) = submit_job(&mut reg, req("scrape", "tmdb:1")).unwrap();
    let u = uuid::Uuid::from_u128(id);
    assert_eq!(u.get_version_num(), 4);
    assert_eq!(u.get_variant(), uuid::Variant::RFC4122);
    assert_eq!(resp.job_id, u.to_string());
    assert_eq!(status(&reg, &resp.job_id).unwrap().status, "queued");
    let (id2, _) = submit_job(&mut reg, req("scrape", "tmdb:2")).unwrap();
    assert_ne!(id, id2);
    assert_eq!(reg.len(), 2);
    assert!(submit_job(&mut reg, req("", "x")).is_err());
    assert_eq!(reg.len(), 2);
}

#[test]
fn notes_give_back_the_job_arguments() {
    let a = notes_args(&Some(r#"{"path":"/m/x.mkv","media_id":"tmdb:1","lang":"en-US"}"#.to_string()));
    assert_eq!(a.get("path").map(String::as_str), Some("/m/x.mkv"));
    assert_eq!(a.get("media_id").map(String::as_str), Some("tmdb:1"));
    assert_eq!(a.get("lang").map(String::as_str), Some("en-US"));
    let job = import::plan(&a).unwrap();
    assert_eq!(job.key, "media/tmdb:1/en-US/source.mkv");
    assert!(notes_args(&None).get("path").is_none());
    assert!(notes_args(&Some("not json".to_string())).get("path").is_none());
    assert!(notes_args(&Some(r#"{"path":1}"#.to_string())).get("path").is_none());
}

#[test]
fn accepted_scrape_job_ends_done() {
    let mut reg = JobRegistry::new();
    let resp = submit(&mut reg, ID, 1, req("scrape", "tt0133093")).unwrap();
    assert_eq!(status(&reg, &resp.job_id).unwrap().status, "queued");
    start(&mut reg, ID);
    assert_eq!(status(&reg, &resp.job_id).unwrap().status, "running");
    let ok = scrape::run("tt0133093").is_ok();
    assert_eq!(finish(&mut reg, ID, ok), "done");
    assert_eq!(status(&reg, &resp.job_id).unwrap().status, "done");
}
