use hmac::{Hmac, Mac};
use sha2::{Digest, Sha256};

use movie_worker::storage::s3::{
    get_failure, list_failure, ping_failure, put_failure, status_success,
    amz_dates, canonical_query, derive_key, extract_tag, parse_list_body, ping_status_ok,
    sha256_hex, S3Storage,
};
use movie_worker::storage::{build_from_env, Backend, StorageEnv, StorageError, StorageExt};

type HmacSha256 = Hmac<Sha256>;

// 2013-05-24T00:00:00Z
const NOW: i64 = 1369353600;

fn ref_sha256_hex(data: &[u8]) -> String {
    let mut h = Sha256::new();
    h.update(data);
    hex::encode(h.finalize())
}

fn ref_hmac(key: &[u8], data: &[u8]) -> Vec<u8> {
    let mut mac = HmacSha256::new_from_slice(key).unwrap();
    mac.update(data);
    mac.finalize().into_bytes().to_vec()
}

fn ref_derive_key(secret: &str, date: &str, region: &str, service: &str) -> Vec<u8> {
    let k = format!("AWS4{secret}");
    let k_date = ref_hmac(k.as_bytes(), date.as_bytes());
    let k_region = ref_hmac(&k_date, region.as_bytes());
    let k_service = ref_hmac(&k_region, service.as_bytes());
    ref_hmac(&k_service, b"aws4_request")
}

fn ref_encode(s: &str) -> String {
    let mut out = String::new();
    for b in s.bytes() {
        match b {
            b'A'..=b'Z' | b'a'..=b'z' | b'0'..=b'9' | b'-' | b'_' | b'.' | b'~' => out.push(b as char),
            _ => out.push_str(&format!("%{:02X}", b)),
        }
    }
    out
}

fn storage(path_style: bool, endpoint: &str, public: Option<&str>) -> S3Storage {
    S3Storage::new(
        Backend::Minio,
        Some(endpoint.to_string()),
        public.map(String::from),
        "media".to_string(),
        "us-east-1".to_string(),
        "AKIDEXAMPLE".to_string(),
        "wJalrXUtnFEMI/K7MDENG+bPxRfiCYEXAMPLEKEY".to_string(),
        path_style,
    )
    .unwrap()
}

fn env() -> StorageEnv {
    StorageEnv {
        endpoint: Some("http://minio:9000/".into()),
        public_endpoint: None,
        bucket: None,
        region: None,
        access_key: Some("ak".into()),
        secret_key: Some("sk".into()),
        backend: None,
        force_path_style: None,
    }
}

#[test]
fn backend_names() {
    assert_eq!(Backend::from_env("minio"), Backend::Minio);
    assert_eq!(Backend::from_env("MinIO"), Backend::Minio);
    assert_eq!(Backend::from_env("aws"), Backend::Aws);
    assert_eq!(Backend::from_env("S3"), Backend::Aws);
    assert_eq!(Backend::from_env("aws-s3"), Backend::Aws);
    assert_eq!(Backend::from_env("r2"), Backend::R2);
    assert_eq!(Backend::from_env("Cloudflare"), Backend::R2);
    assert_eq!(Backend::from_env("wasabi"), Backend::GenericS3);
    assert_eq!(Backend::from_env(""), Backend::GenericS3);
}

#[test]
fn backend_labels() {
    assert_eq!(Backend::Minio.label(), "minio");
    assert_eq!(Backend::Aws.label(), "aws-s3");
    assert_eq!(Backend::R2.label(), "cloudflare-r2");
    assert_eq!(Backend::GenericS3.label(), "s3-generic");
    assert_eq!(storage(true, "http://h", None).back_backend_str(), "minio");
}

#[test]
fn new_requires_an_endpoint_and_trims_slashes() {
    let r = S3Storage::new(
        Backend::Aws,
        None,
        None,
        "b".into(),
        "r".into(),
        "a".into(),
        "s".into(),
        true,
    );
    assert!(matches!(r, Err(StorageError::MissingEndpoint)));
    let s = storage(false, "http://minio:9000//", None);
    assert_eq!(s.host_for("http://minio:9000", "k"), "http://media.minio:9000/k");
    assert_eq!(s.bucket(), "media");
    assert_eq!(s.backend(), Backend::Minio);
}

#[test]
fn object_url_in_both_styles() {
    let path = storage(true, "http://h:9000", None);
    let virt = storage(false, "http://h:9000", None);
    assert_eq!(path.host_for("http://h:9000/", "a/b.mp4"), "http://h:9000/media/a/b.mp4");
    assert_eq!(path.host_for("http://h:9000///", "k"), "http://h:9000/media/k");
    assert_eq!(
        virt.host_for("https://s3.us-east-1.amazonaws.com", "a.mp4"),
        "https://media.s3.us-east-1.amazonaws.com/a.mp4"
    );
    assert_eq!(virt.host_for("http://h:9000", "a/b.mp4"), "http://media.h:9000/a/b.mp4");
    assert_eq!(virt.host_for("h:9000", "k"), "media.h:9000/k");
}

#[test]
fn build_from_env_defaults() {
    let s = build_from_env(env()).unwrap();
    assert_eq!(s.bucket(), "media");
    assert_eq!(s.backend(), Backend::Minio);
    let r = s.get_request_at("k", NOW).unwrap();
    assert_eq!(r.url, "http://minio:9000/media/k");
    let auth = &r.headers.iter().find(|h| h.0 == "authorization").unwrap().1;
    assert!(auth.contains("Credential=ak/20130524/us-east-1/s3/aws4_request"));
}

#[test]
fn build_from_env_errors_in_order() {
    let mut e = env();
    e.access_key = None;
    e.secret_key = None;
    e.endpoint = None;
    assert!(matches!(build_from_env(e), Err(StorageError::MissingAccessKey)));
    let mut e = env();
    e.secret_key = None;
    e.endpoint = None;
    assert!(matches!(build_from_env(e), Err(StorageError::MissingSecretKey)));
    let mut e = env();
    e.endpoint = None;
    assert!(matches!(build_from_env(e), Err(StorageError::MissingEndpoint)));
}

#[test]
fn build_from_env_reads_settings() {
    let mut e = env();
    e.bucket = Some("films".into());
    e.region = Some("eu-west-1".into());
    e.backend = Some("R2".into());
    e.force_path_style = Some("false".into());
    e.public_endpoint = Some("https://cdn.example.com/".into());
    let s = build_from_env(e).unwrap();
    assert_eq!(s.bucket(), "films");
    assert_eq!(s.backend(), Backend::R2);
    let url = s.presigned_get_at("k", 60, NOW).unwrap();
    assert!(url.starts_with("https://cdn.example.com/films/k?"));
    assert!(url.contains("eu-west-1"));
    for v in ["true", "1"] {
        let mut e = env();
        e.force_path_style = Some(v.into());
        let s = build_from_env(e).unwrap();
        // path style: the signed path of a presigned URL holds the bucket
        assert_eq!(s.presigned_get_at("k", 60, NOW).unwrap(), storage_like(&s, true));
    }
}

fn storage_like(s: &S3Storage, path_style: bool) -> String {
    let t = S3Storage::new(
        Backend::Minio,
        Some("http://minio:9000".into()),
        None,
        s.bucket().to_string(),
        "us-east-1".into(),
        "ak".into(),
        "sk".into(),
        path_style,
    )
    .unwrap();
    t.presigned_get_at("k", 60, NOW).unwrap()
}

#[test]
fn sha256_of_nothing() {
    assert_eq!(
        sha256_hex(b""),
        "e3b0c44298fc1c149afbf4c8996fb92427ae41e4649b934ca495991b7852b855"
    );
    assert_eq!(sha256_hex(b"abc"), ref_sha256_hex(b"abc"));
}

#[test]
fn signing_key_matches_the_aws_example() {
    // The signing-key example of the AWS Signature Version 4 documentation.
    let k = derive_key("wJalrXUtnFEMI/K7MDENG+bPxRfiCYEXAMPLEKEY", "20120215", "us-east-1", "iam");
    assert_eq!(
        hex::encode(k),
        "f4780e2d9f65fa895f9c67b32ce1baf0b0d8a43505a000a1a9e090d414db404d"
    );
}

#[test]
fn dates_of_a_clock_value() {
    let (a, d) = amz_dates(NOW).unwrap();
    assert_eq!(a, "20130524T000000Z");
    assert_eq!(d, "20130524");
    assert!(amz_dates(i64::MAX).is_none());
}

fn ref_headers(s_secret: &str, access: &str, method: &str, path: &str, host: &str, query: &str, body_hash: &str, ct: Option<&str>) -> Vec<(String, String)> {
    let amz_date = "20130524T000000Z";
    let date_stamp = "20130524";
    let canonical_headers = match ct {
        Some(ct) => format!("content-type:{ct}\nhost:{host}\nx-amz-content-sha256:{body_hash}\nx-amz-date:{amz_date}\n"),
        None => format!("host:{host}\nx-amz-content-sha256:{body_hash}\nx-amz-date:{amz_date}\n"),
    };
    let signed_headers = match ct {
        Some(_) => "content-type;host;x-amz-content-sha256;x-amz-date",
        None => "host;x-amz-content-sha256;x-amz-date",
    };
    let canonical_request = format!("{method}\n{path}\n{query}\n{canonical_headers}\n{signed_headers}\n{body_hash}");
    let cr_hash = ref_sha256_hex(canonical_request.as_bytes());
    let scope = format!("{date_stamp}/us-east-1/s3/aws4_request");
    let sts = format!("AWS4-HMAC-SHA256\n{amz_date}\n{scope}\n{cr_hash}");
    let key = ref_derive_key(s_secret, date_stamp, "us-east-1", "s3");
    let sig = hex::encode(ref_hmac(&key, sts.as_bytes()));
    let auth = format!("AWS4-HMAC-SHA256 Credential={access}/{scope}, SignedHeaders={signed_headers}, Signature={sig}");
    let mut h = vec![
        ("x-amz-date".to_string(), amz_date.to_string()),
        ("x-amz-content-sha256".to_string(), body_hash.to_string()),
        ("authorization".to_string(), auth),
    ];
    if let Some(ct) = ct {
        h.push(("content-type".to_string(), ct.to_string()));
    }
    h
}

#[test]
fn header_signature_matches_reference() {
    let s = storage(true, "http://minio:9000", None);
    let bh = ref_sha256_hex(b"");
    let got = s.sign_request("GET", "/media/k", "minio:9000", "", &bh, None, "20130524T000000Z", "20130524");
    assert_eq!(got, ref_headers("wJalrXUtnFEMI/K7MDENG+bPxRfiCYEXAMPLEKEY", "AKIDEXAMPLE", "GET", "/media/k", "minio:9000", "", &bh, None));
    let got = s.sign_request("PUT", "/media/k", "minio:9000", "", &bh, Some("video/mp4"), "20130524T000000Z", "20130524");
    assert_eq!(got, ref_headers("wJalrXUtnFEMI/K7MDENG+bPxRfiCYEXAMPLEKEY", "AKIDEXAMPLE", "PUT", "/media/k", "minio:9000", "", &bh, Some("video/mp4")));
    let sig = got[2].1.rsplit("Signature=").next().unwrap();
    assert_eq!(sig.len(), 64);
    assert!(sig.chars().all(|c| c.is_ascii_digit() || ('a'..='f').contains(&c)));
}

#[test]
fn put_request_is_signed_for_the_object() {
    let s = storage(true, "http://minio:9000/", None);
    let r = s.put_request_at("a b.mp4", b"hello", None, NOW).unwrap();
    assert_eq!(r.url, "http://minio:9000/media/a b.mp4");
    let bh = ref_sha256_hex(b"hello");
    assert_eq!(
        r.headers,
        ref_headers("wJalrXUtnFEMI/K7MDENG+bPxRfiCYEXAMPLEKEY", "AKIDEXAMPLE", "PUT", "/media/a%20b.mp4", "minio:9000", "", &bh, Some("application/octet-stream"))
    );
    let r = s.put_request_at("k", b"", Some("video/x-matroska"), NOW).unwrap();
    assert_eq!(r.headers[3], ("content-type".to_string(), "video/x-matroska".to_string()));
}

#[test]
fn list_request_query_and_signature() {
    let s = storage(true, "http://minio:9000", None);
    let r = s.list_request_at("media/x y/", 25, NOW).unwrap();
    let query = "list-type=2&prefix=media%2Fx%20y%2F&max-keys=25";
    assert_eq!(r.url, format!("http://minio:9000/media?{query}"));
    let canonical = "list-type=2&max-keys=25&prefix=media%2Fx%20y%2F";
    let bh = ref_sha256_hex(b"");
    assert_eq!(
        r.headers,
        ref_headers("wJalrXUtnFEMI/K7MDENG+bPxRfiCYEXAMPLEKEY", "AKIDEXAMPLE", "GET", "/media", "minio:9000", canonical, &bh, None)
    );
}

#[test]
fn ping_request_heads_the_bucket() {
    let s = storage(true, "http://minio:9000", None);
    let r = s.ping_request_at(NOW).unwrap();
    assert_eq!(r.url, "http://minio:9000/media");
    let bh = ref_sha256_hex(b"");
    assert_eq!(
        r.headers,
        ref_headers("wJalrXUtnFEMI/K7MDENG+bPxRfiCYEXAMPLEKEY", "AKIDEXAMPLE", "HEAD", "/media", "minio:9000", "", &bh, None)
    );
}

#[test]
fn virtual_hosted_put_is_signed_for_its_host() {
    let s = storage(false, "https://s3.us-east-1.amazonaws.com", None);
    let r = s.put_request_at("a.mp4", b"data", Some("video/mp4"), NOW).unwrap();
    assert_eq!(r.url, "https://media.s3.us-east-1.amazonaws.com/a.mp4");
    let bh = ref_sha256_hex(b"data");
    assert_eq!(
        r.headers,
        ref_headers(
            "wJalrXUtnFEMI/K7MDENG+bPxRfiCYEXAMPLEKEY",
            "AKIDEXAMPLE",
            "PUT",
            "/a.mp4",
            "media.s3.us-east-1.amazonaws.com",
            "",
            &bh,
            Some("video/mp4")
        )
    );
}

#[test]
fn request_errors() {
    let bad = storage(true, "not a url", None);
    assert!(matches!(bad.get_request_at("k", NOW), Err(StorageError::EndpointParse(_))));
    assert!(matches!(bad.ping_request_at(NOW), Err(StorageError::EndpointParse(_))));
    assert!(matches!(bad.presigned_get_at("k", 1, NOW), Err(StorageError::EndpointParse(_))));
    let hostless = storage(true, "unix:/run/s3", None);
    assert!(matches!(hostless.put_request_at("k", b"x", None, NOW), Err(StorageError::NoHost)));
    assert!(matches!(hostless.ping_request_at(NOW), Err(StorageError::NoHost)));
    assert!(matches!(hostless.presigned_get_at("k", 1, NOW), Err(StorageError::NoHost)));
    let ok = storage(true, "http://h", None);
    assert!(matches!(ok.list_request_at("", 1, i64::MAX), Err(StorageError::ClockOutOfRange)));
    assert!(matches!(ok.presigned_get_at("k", 1, i64::MAX), Err(StorageError::ClockOutOfRange)));
}

fn ref_presigned(public: &str, host: &str, path: &str, key: &str, ttl: u64) -> String {
    let amz_date = "20130524T000000Z";
    let date_stamp = "20130524";
    let scope = format!("{date_stamp}/us-east-1/s3/aws4_request");
    let credential = format!("AKIDEXAMPLE/{scope}");
    let mut q: Vec<(String, String)> = vec![
        ("X-Amz-Algorithm".into(), "AWS4-HMAC-SHA256".into()),
        ("X-Amz-Credential".into(), credential),
        ("X-Amz-Date".into(), amz_date.into()),
        ("X-Amz-Expires".into(), ttl.to_string()),
        ("X-Amz-SignedHeaders".into(), "host".into()),
        ("key".into(), key.to_string()),
    ];
    q.sort_by(|a, b| a.0.cmp(&b.0));
    let cq = q.iter().map(|(k, v)| format!("{}={}", ref_encode(k), ref_encode(v))).collect::<Vec<_>>().join("&");
    let cr = format!("GET\n{path}\n{cq}\nhost:{host}\n\nhost\nUNSIGNED-PAYLOAD");
    let sts = format!("AWS4-HMAC-SHA256\n{amz_date}\n{scope}\n{}", ref_sha256_hex(cr.as_bytes()));
    let k = ref_derive_key("wJalrXUtnFEMI/K7MDENG+bPxRfiCYEXAMPLEKEY", date_stamp, "us-east-1", "s3");
    let sig = hex::encode(ref_hmac(&k, sts.as_bytes()));
    format!("{public}/media/{key}?{cq}&X-Amz-Signature={sig}")
}

#[test]
fn presigned_url_matches_reference() {
    let s = storage(true, "http://minio:9000", Some("https://media.example.com/"));
    assert_eq!(
        s.presigned_get_at("movies/1/es-ES/source.mp4", 3600, NOW).unwrap(),
        ref_presigned(
            "https://media.example.com",
            "media.example.com",
            "/media/movies/1/es-ES/source.mp4",
            "movies/1/es-ES/source.mp4",
            3600
        )
    );
    let v = storage(false, "http://minio:9000", None);
    let url = v.presigned_get_at("a b", 60, NOW).unwrap();
    assert_eq!(url, ref_presigned("http://minio:9000", "minio:9000", "/media/a%20b", "a b", 60));
    let sig = url.rsplit("&X-Amz-Signature=").next().unwrap();
    assert_eq!(sig.len(), 64);
    assert!(sig.chars().all(|c| c.is_ascii_digit() || ('a'..='f').contains(&c)));
}

#[test]
fn canonical_query_joins_encoded_pairs() {
    let ps = vec![("a b".to_string(), "c&d".to_string()), ("e".to_string(), "".to_string())];
    assert_eq!(canonical_query(&ps), "a%20b=c%26d&e=");
    assert_eq!(canonical_query(&vec![]), "");
}

#[test]
fn tags_are_extracted_and_trimmed() {
    assert_eq!(extract_tag("<a><Key> x.mp4 </Key></a>", "Key"), Some("x.mp4".to_string()));
    assert_eq!(extract_tag("<Key>x", "Key"), None);
    assert_eq!(extract_tag("nothing", "Key"), None);
    assert_eq!(extract_tag("</Key><Key>b</Key>", "Key"), Some("b".to_string()));
}

const LIST_BODY: &str = "<?xml version=\"1.0\"?><ListBucketResult><Name>media</Name>\
<Contents><Key>a.mp4</Key><Size>10</Size><ETag>\"e1\"</ETag></Contents>\
<Contents><Key>b.mkv</Key><Size>big</Size></Contents>\
<Contents><Size>3</Size></Contents>\
<Contents><Key>c.avi</Key></Contents></ListBucketResult>";

#[test]
fn list_body_is_parsed() {
    let out = parse_list_body(LIST_BODY, 100);
    assert_eq!(out.len(), 3);
    assert_eq!(out[0].key, "a.mp4");
    assert_eq!(out[0].size, 10);
    assert_eq!(out[0].etag.as_deref(), Some("\"e1\""));
    assert_eq!(out[1].key, "b.mkv");
    assert_eq!(out[1].size, 0);
    assert_eq!(out[1].etag, None);
    assert_eq!(out[2].key, "c.avi");
    assert!(out.iter().all(|o| o.content_type.is_none() && o.last_modified.is_none()));
}

#[test]
fn list_body_is_cut_to_the_limit() {
    assert_eq!(parse_list_body(LIST_BODY, 2).len(), 2);
    assert_eq!(parse_list_body(LIST_BODY, 1).len(), 1);
    assert_eq!(parse_list_body(LIST_BODY, 1)[0].key, "a.mp4");
    assert_eq!(parse_list_body(LIST_BODY, 0).len(), 0);
    assert_eq!(parse_list_body(LIST_BODY, 3).len(), 3);
    assert_eq!(parse_list_body("<ListBucketResult/>", 0).len(), 0);
}

#[test]
fn ping_statuses() {
    assert!(ping_status_ok(200));
    assert!(ping_status_ok(204));
    assert!(ping_status_ok(299));
    assert!(!ping_status_ok(404));
    assert!(!ping_status_ok(199));
    assert!(!ping_status_ok(403));
    assert!(!ping_status_ok(500));
    assert!(!ping_status_ok(301));
}

#[test]
fn tags_with_non_ascii_text() {
    assert_eq!(extract_tag("<Key>pelí cula.mkv</Key>", "Key"), Some("pelí cula.mkv".to_string()));
    let out = parse_list_body("<Contents><Key>año/ñ.mp4</Key><Size>7</Size></Contents>", 10);
    assert_eq!(out.len(), 1);
    assert_eq!(out[0].key, "año/ñ.mp4");
    assert_eq!(out[0].size, 7);
}

#[test]
fn requests_signed_now() {
    let s = storage(true, "http://minio:9000", None);
    let (amz, _) = amz_dates(chrono::Utc::now().timestamp()).unwrap();
    let day = &amz[..8];
    let url = s.presigned_get("k", 60).unwrap();
    assert!(url.starts_with("http://minio:9000/media/k?X-Amz-Algorithm=AWS4-HMAC-SHA256&"));
    assert!(url.contains("X-Amz-Expires=60&"));
    assert!(url.contains(day));
    for r in [
        s.put_request("k", b"x", None).unwrap(),
        s.get_request("k").unwrap(),
        s.list_request("p", 3).unwrap(),
        s.ping_request().unwrap(),
    ] {
        assert_eq!(r.headers[0].0, "x-amz-date");
        assert!(r.headers[0].1.starts_with(day));
        assert_eq!(r.headers[2].0, "authorization");
        let sig = r.headers[2].1.rsplit("Signature=").next().unwrap();
        assert_eq!(sig.len(), 64);
    }
    let hostless = storage(true, "unix:/run/s3", None);
    assert!(matches!(hostless.get_request("k"), Err(StorageError::NoHost)));
}

#[test]
fn presigned_errors_come_from_the_public_endpoint() {
    // `http:` alone does not parse, though `http:/media/k` would.
    let s = storage(true, "http://h", Some("http:"));
    assert!(matches!(s.presigned_get_at("k", 60, NOW), Err(StorageError::EndpointParse(_))));
}

#[test]
fn presigned_path_is_uri_encoded_under_the_endpoint_path() {
    let s = storage(true, "http://minio:9000", Some("http://cdn.example.com:8443/s3/"));
    let key = "a+b (1).mp4";
    assert_eq!(
        s.presigned_get_at(key, 60, NOW).unwrap(),
        ref_presigned(
            "http://cdn.example.com:8443/s3",
            "cdn.example.com:8443",
            "/s3/media/a%2Bb%20%281%29.mp4",
            key,
            60
        )
    );
}

#[test]
fn response_statuses_and_failures() {
    assert!(status_success(200) && status_success(204) && status_success(299));
    assert!(!status_success(199) && !status_success(300) && !status_success(404));
    assert_eq!(put_failure("k", "403 Forbidden", "denied"), "PUT k -> 403 Forbidden: denied");
    assert_eq!(get_failure("k", "404 Not Found"), "GET k -> 404 Not Found");
    assert_eq!(list_failure("500 Internal Server Error"), "LIST -> 500 Internal Server Error");
    assert_eq!(ping_failure("404 Not Found"), "ping status 404 Not Found");
}

#[test]
fn signing_key_with_a_long_secret() {
    // A secret longer than a block is hashed before use.
    let k = derive_key("", "", "", "");
    assert_eq!(k.len(), 32);
    let long_secret = "x".repeat(100);
    let k = derive_key(&long_secret, "20130524", "us-east-1", "s3");
    assert_eq!(k, ref_derive_key(&long_secret, "20130524", "us-east-1", "s3"));
}
