use movie_worker::arr::radarr::RadarrClient;
use movie_worker::arr::sonarr::SonarrClient;
use movie_worker::arr::ArrClient;
use movie_worker::client::ApiClient;
use movie_worker::config::{Config, ConfigEnv, ConfigError};
use movie_worker::error::AppError;
use movie_worker::handlers::presign::{default_limit, default_ttl};
use movie_worker::handlers::streams::{notify, NotifyRequest};
use movie_worker::handlers::webhook::{extract_fields, import, ImportQuery, RadarrWebhook};

fn query(m: Option<&str>, p: Option<&str>) -> ImportQuery {
    ImportQuery { media_id: m.map(String::from), path: p.map(String::from) }
}

#[test]
fn fields_from_the_query_without_a_body() {
    let (m, p) = extract_fields(query(Some("q1"), Some("/q")), None);
    assert_eq!((m.as_deref(), p.as_deref()), (Some("q1"), Some("/q")));
}

#[test]
fn body_fields_win_in_their_order() {
    let b = RadarrWebhook {
        media_id: Some("m".into()),
        tmdb_id: Some(1),
        tvdb_id: Some(2),
        movie_tmdb_id: Some(3),
        series_tvdb_id: Some(4),
        path: Some("/p".into()),
        movie_file_path: Some("/mf".into()),
        episode_file_path: Some("/ef".into()),
        ..Default::default()
    };
    let (m, p) = extract_fields(query(Some("q"), Some("/q")), Some(b));
    assert_eq!((m.as_deref(), p.as_deref()), (Some("m"), Some("/p")));

    let b = RadarrWebhook { tmdb_id: Some(603), tvdb_id: Some(2), ..Default::default() };
    assert_eq!(extract_fields(query(None, None), Some(b)).0.as_deref(), Some("tmdb:603"));
    let b = RadarrWebhook { tvdb_id: Some(81189), movie_tmdb_id: Some(3), ..Default::default() };
    assert_eq!(extract_fields(query(None, None), Some(b)).0.as_deref(), Some("tvdb:81189"));
    let b = RadarrWebhook { movie_tmdb_id: Some(3), series_tvdb_id: Some(4), ..Default::default() };
    assert_eq!(extract_fields(query(None, None), Some(b)).0.as_deref(), Some("tmdb:3"));
    let b = RadarrWebhook { series_tvdb_id: Some(4), ..Default::default() };
    assert_eq!(extract_fields(query(None, None), Some(b)).0.as_deref(), Some("tvdb:4"));

    let b = RadarrWebhook { movie_file_path: Some("/mf".into()), episode_file_path: Some("/ef".into()), ..Default::default() };
    assert_eq!(extract_fields(query(None, None), Some(b)).1.as_deref(), Some("/mf"));
    let b = RadarrWebhook { episode_file_path: Some("/ef".into()), ..Default::default() };
    assert_eq!(extract_fields(query(None, None), Some(b)).1.as_deref(), Some("/ef"));

    // A body, even an empty one, hides the query string.
    let (m, p) = extract_fields(query(Some("q"), Some("/q")), Some(RadarrWebhook::default()));
    assert_eq!((m, p), (None, None));
}

#[test]
fn import_builds_the_job_arguments() {
    let b = RadarrWebhook { tmdb_id: Some(949), path: Some("/movies/heat.mkv".into()), ..Default::default() };
    let a = import(query(None, None), Some(b)).unwrap();
    assert_eq!(a.media_id, "tmdb:949");
    assert_eq!(a.path, "/movies/heat.mkv");
    assert_eq!(a.args.get("media_id").map(String::as_str), Some("tmdb:949"));
    assert_eq!(a.args.get("path").map(String::as_str), Some("/movies/heat.mkv"));
    assert_eq!(a.args.get("lang").map(String::as_str), Some("es-ES"));
    let rec = a.record(5, 77, "{}".into());
    assert_eq!((rec.id, rec.kind.as_str(), rec.media_id.as_str(), rec.created_at), (5, "import", "tmdb:949", 77));
    assert_eq!(rec.notes.as_deref(), Some("{}"));
    let rec = a.job_record();
    assert_eq!(uuid::Uuid::from_u128(rec.id).get_version_num(), 4);
    assert_eq!((rec.kind.as_str(), rec.media_id.as_str()), ("import", "tmdb:949"));
    let notes: std::collections::HashMap<String, String> =
        serde_json::from_str(rec.notes.as_deref().unwrap()).unwrap();
    assert_eq!(notes.len(), 3);
    assert_eq!(notes["media_id"], "tmdb:949");
    assert_eq!(notes["path"], "/movies/heat.mkv");
    assert_eq!(notes["lang"], "es-ES");
}

#[test]
fn import_notes_are_a_compact_json_object() {
    let b = RadarrWebhook { media_id: Some("m1".into()), path: Some("/a \"b\".mkv".into()), ..Default::default() };
    let a = import(query(None, None), Some(b)).unwrap();
    let notes = a.job_record().notes.unwrap();
    let members = [r#""media_id":"m1""#, r#""path":"/a \"b\".mkv""#, r#""lang":"es-ES""#];
    let mut found = false;
    for i in 0..3 {
        for j in 0..3 {
            for k in 0..3 {
                if i != j && j != k && i != k {
                    let text = format!("{{{},{},{}}}", members[i], members[j], members[k]);
                    found |= text == notes;
                }
            }
        }
    }
    assert!(found, "{notes}");
}

#[test]
fn import_errors() {
    let e = import(query(None, Some("/p")), None).unwrap_err();
    assert_eq!((e.status_code(), e.message()), (400, "missing media_id/tmdbId/tvdbId"));
    let e = import(query(Some("m"), None), None).unwrap_err();
    assert_eq!((e.status_code(), e.message()), (400, "missing path/movieFile.path"));
    let e = import(query(None, None), None).unwrap_err();
    assert_eq!(e.message(), "missing media_id/tmdbId/tvdbId");
}

#[test]
fn notify_needs_a_media_id() {
    assert!(notify(&NotifyRequest { media_id: "tmdb:1".into() }).is_ok());
    let e = notify(&NotifyRequest { media_id: String::new() }).unwrap_err();
    assert_eq!((e.status_code(), e.message()), (400, "media_id required"));
}

#[test]
fn presign_defaults() {
    assert_eq!(default_ttl(), 3600);
    assert_eq!(default_limit(), 100);
}

#[test]
fn error_codes() {
    assert_eq!(AppError::BadRequest("b".into()).status_code(), 400);
    assert_eq!(AppError::NotFound("n".into()).status_code(), 404);
    let e = AppError::Internal("i".into());
    assert_eq!((e.status_code(), e.message()), (500, "i"));
}

fn empty_env() -> ConfigEnv {
    ConfigEnv {
        addr: None,
        api_url: None,
        media_root: None,
        radarr_url: None,
        radarr_api_key: None,
        sonarr_url: None,
        sonarr_api_key: None,
    }
}

#[test]
fn config_defaults() {
    let c = Config::from_env(empty_env()).unwrap();
    assert_eq!(c.addr, "0.0.0.0:9090");
    assert_eq!(c.api_url, "http://localhost:8080");
    assert_eq!(c.media_root, "/media");
    assert_eq!(c.radarr_url, "http://localhost:7878");
    assert_eq!(c.radarr_api_key, "");
    assert_eq!(c.sonarr_url, "http://localhost:8989");
    assert_eq!(c.sonarr_api_key, "");
    assert!(c.validate().is_ok());
    assert!(!c.radarr_enabled());
    assert!(!c.sonarr_enabled());
}

#[test]
fn config_values_and_validation() {
    let mut e = empty_env();
    e.addr = Some(String::new());
    e.media_root = Some("/srv/media".into());
    e.radarr_api_key = Some("key".into());
    let c = Config::from_env(e).unwrap();
    assert_eq!(c.media_root, "/srv/media");
    assert_eq!(c.validate(), Err(ConfigError::EmptyAddr));
    assert!(c.radarr_enabled());
    assert!(!c.sonarr_enabled());
}

#[test]
fn arr_clients() {
    let c = ArrClient::new("http://radarr:7878//", "k");
    assert_eq!(c.base_url, "http://radarr:7878");
    assert_eq!(c.api_key, "k");
    assert_eq!(c.url("/api/v3/movie"), "http://radarr:7878/api/v3/movie");
    assert_eq!(c.status_url(), "http://radarr:7878/api/v3/system/status");
    assert_eq!(c.api_key_header(), "X-Api-Key");
    let r = RadarrClient::new("http://r/", "k");
    assert_eq!(r.inner.base_url, "http://r");
    assert_eq!(RadarrClient::tmdb_lookup_path(603), "/api/v3/movie/lookup/tmdb?tmdbId=603");
    assert_eq!(RadarrClient::term_lookup_path("the matrix"), "/api/v3/movie/lookup?term=the%20matrix");
    let s = SonarrClient::new("http://s", "k");
    assert_eq!(s.inner.base_url, "http://s");
    assert_eq!(SonarrClient::tvdb_lookup_path(81189), "/api/v3/series/lookup?term=tvdb:81189");
    assert_eq!(SonarrClient::term_lookup_path("Breaking Bad"), "/api/v3/series/lookup?term=Breaking%20Bad");
}

#[test]
fn arr_bodies() {
    let m = RadarrClient::new_movie("Heat", 949, Some(950), Some(1995));
    assert_eq!((m.tmdb_id, m.year, m.quality_profile_id), (950, 1995, 1));
    assert_eq!((m.root_folder_path.as_str(), m.minimum_availability.as_str()), ("/movies", "released"));
    assert!(m.monitored && m.search_for_movie);
    let m = RadarrClient::new_movie("Heat", 949, None, None);
    assert_eq!((m.tmdb_id, m.year), (949, 0));
    let s = SonarrClient::new_series("BB", 81189, None, Some(2008));
    assert_eq!((s.tvdb_id, s.year, s.root_folder_path.as_str()), (81189, 2008, "/tv"));
    assert!(s.monitored && s.search_for_missing_episodes);
}

#[test]
fn api_job_url() {
    let c = ApiClient::new("http://api:8080/");
    assert_eq!(c.job_url("abc"), "http://api:8080/api/internal/jobs/abc");
}

#[test]
fn webhook_notes_feed_the_import_job() {
    let b = RadarrWebhook { tvdb_id: Some(81189), episode_file_path: Some("/tv/bb/s01e01.mkv".into()), ..Default::default() };
    let a = import(query(None, None), Some(b)).unwrap();
    let rec = a.job_record();
    assert_eq!(movie_worker::jobs::job_kind(&rec.kind), movie_worker::jobs::JobKind::Import);
    let args = movie_worker::jobs::notes_args(&rec.notes);
    let job = movie_worker::jobs::import::plan(&args).unwrap();
    assert_eq!(job.path, "/tv/bb/s01e01.mkv");
    assert_eq!(job.key, "media/tvdb:81189/es-ES/source.mkv");
}
