//! S3 request construction and AWS Signature Version 4 signing: header
//! signatures for PUT, GET, LIST and HEAD, query-string signatures for
//! presigned GET URLs, and the parsing of LIST responses.

use hmac::Mac;
use sha2::Digest;
use vstd::prelude::*;
use vstd::utf8::encode_utf8;

use super::{opt_string_view, Backend, ObjectInfo, ObjectInfoView, StorageError};
use crate::state::clock_now;
use crate::text::{
    lex_lt, chars_of, contains_seq, decimal, decimal_string, find_chars, find_from, hex_encode, hex_lower,
    lemma_find_from_bounds, owned, parse_u64, parse_u64_spec, slice_chars, split_chars, split_spec,
    string_of, trim, trim_chars, trim_end_char, trim_end_matches_char, urlencode_spec, urlencoding,
    is_lower_hex, uri_path_encoding, uri_path_spec, lemma_parse_decimal_roundtrip,
};

verus! {

broadcast use vstd::string::group_string_axioms;

// ----------------------------------------------------------------------
// Outside crates: hashing, MAC, clock formatting, URL parsing
// ----------------------------------------------------------------------

/// `url::ParseError`, the error of `url::Url::parse`, carried as is.
#[verifier::external_type_specification]
#[verifier::external_body]
pub struct ExUrlParseError(url::ParseError);

/// The SHA-256 digest of `data`.
pub uninterp spec fn sha256_digest(data: Seq<u8>) -> Seq<u8>;

/// The 64-byte block key of HMAC-SHA256 (RFC 2104): the key itself, or its
/// SHA-256 digest where the key is longer than a block, padded with zero
/// bytes to the block size.
pub open spec fn hmac_block_key(key: Seq<u8>) -> Seq<u8> {
    let k = if key.len() <= 64 {
        key
    } else {
        sha256_digest(key)
    };
    k + Seq::new((64 - k.len()) as nat, |i: int| 0u8)
}

/// Each byte of `k` exclusive-or'ed with `pad`.
pub open spec fn xor_bytes(k: Seq<u8>, pad: u8) -> Seq<u8> {
    k.map_values(|b: u8| b ^ pad)
}

/// The HMAC-SHA256 tag of `data` under `key`: the digest of the block key
/// xor `0x5c`, followed by the digest of the block key xor `0x36` followed
/// by the data.
pub open spec fn hmac_sha256_tag(key: Seq<u8>, data: Seq<u8>) -> Seq<u8> {
    let bk = hmac_block_key(key);
    sha256_digest(xor_bytes(bk, 0x5cu8) + sha256_digest(xor_bytes(bk, 0x36u8) + data))
}

/// The text that chrono's `DateTime::<Utc>::from_timestamp(secs, 0)` formats
/// with `fmt`, or `None` where the timestamp is outside chrono's date range.
pub uninterp spec fn utc_formatted(secs: i64, fmt: Seq<char>) -> Option<Seq<char>>;

/// What `url::Url::parse` gives for `url`, read with `host_str`, `port` and
/// `path`: `None` if the URL does not parse, else its host (if it has one),
/// its port (only where the URL names one that is not its scheme's default)
/// and its path.
pub uninterp spec fn url_parts(url: Seq<char>) -> Option<(Option<Seq<char>>, Option<u16>, Seq<char>)>;

/// `sha2::Sha256` over `data` (new, update, finalize). Claimed: the result is
/// the named digest of the bytes, 32 bytes long (the output size of SHA-256).
#[verifier::external_body]
fn sha256(data: &[u8]) -> (out: Vec<u8>)
    ensures
        out@ == sha256_digest(data@),
        out@.len() == 32,
{
    let mut h = sha2::Sha256::new();
    h.update(data);
    h.finalize().to_vec()
}

/// `hmac::Hmac<sha2::Sha256>` keyed with `key` over `data`
/// (`new_from_slice`, which accepts keys of any length, `update`,
/// `finalize`). Claimed: the result is the HMAC construction above over the
/// named SHA-256 digest (the crate derives the block key, then hashes the
/// inner and the outer pad in turn), 32 bytes long.
#[verifier::external_body]
fn hmac_sha256(key: &[u8], data: &[u8]) -> (out: Vec<u8>)
    ensures
        out@ == hmac_sha256_tag(key@, data@),
        out@.len() == 32,
{
    let mut mac = <hmac::Hmac<sha2::Sha256> as hmac::Mac>::new_from_slice(key).unwrap();
    mac.update(data);
    mac.finalize().into_bytes().to_vec()
}

/// The format of the `X-Amz-Date` value.
pub open spec fn amz_date_format() -> Seq<char> {
    "%Y%m%dT%H%M%SZ"@
}

/// The format of the date in a credential scope.
pub open spec fn date_stamp_format() -> Seq<char> {
    "%Y%m%d"@
}

/// chrono's `DateTime::<Utc>::from_timestamp(secs, 0)` formatted with `fmt`
/// (one of the two formats above, which chrono always renders). Claimed: the
/// result is the named text for the timestamp and the format.
#[verifier::external_body]
fn utc_format(secs: i64, fmt: &str) -> (r: Option<String>)
    requires
        fmt@ == amz_date_format() || fmt@ == date_stamp_format(),
    ensures
        r is None <==> utc_formatted(secs, fmt@) is None,
        r matches Some(s) ==> utc_formatted(secs, fmt@) == Some(s@),
{
    match chrono::DateTime::from_timestamp(secs, 0) {
        Some(t) => Some(t.format(fmt).to_string()),
        None => None,
    }
}

/// The parts of a parsed URL that a signature covers.
pub struct UrlParts {
    pub host: Option<String>,
    pub port: Option<u16>,
    pub path: String,
}

/// `url::Url::parse(url)`, then `host_str`, `port` and `path` of the result.
/// Claimed: the result agrees with the named outcome; the parse error itself
/// is carried as is.
#[verifier::external_body]
fn parse_url(url: &str) -> (r: Result<UrlParts, url::ParseError>)
    ensures
        r is Err <==> url_parts(url@) is None,
        r matches Ok(p) ==> url_parts(url@) == Some((opt_string_view(p.host), p.port, p.path@)),
{
    match url::Url::parse(url) {
        Ok(u) => Ok(UrlParts { host: u.host_str().map(String::from), port: u.port(), path: String::from(u.path()) }),
        Err(e) => Err(e),
    }
}

// ----------------------------------------------------------------------
// Signature Version 4 building blocks
// ----------------------------------------------------------------------

/// The lower-case hexadecimal SHA-256 digest of `data`.
pub open spec fn sha256_hex_spec(data: Seq<u8>) -> Seq<char> {
    hex_lower(sha256_digest(data))
}

/// The lower-case hexadecimal SHA-256 digest of `data`.
pub fn sha256_hex(data: &[u8]) -> (s: String)
    ensures
        s@ == sha256_hex_spec(data@),
        is_lower_hex(s@, 64),
{
    let d = sha256(data);
    hex_encode(d.as_slice())
}

/// The SigV4 signing key: the secret prefixed with `AWS4`, then chained
/// HMAC-SHA256 over the date, the region, the service and `aws4_request`.
pub open spec fn derive_key_spec(
    secret: Seq<char>,
    date: Seq<char>,
    region: Seq<char>,
    service: Seq<char>,
) -> Seq<u8> {
    let k = encode_utf8("AWS4"@ + secret);
    let k_date = hmac_sha256_tag(k, encode_utf8(date));
    let k_region = hmac_sha256_tag(k_date, encode_utf8(region));
    let k_service = hmac_sha256_tag(k_region, encode_utf8(service));
    hmac_sha256_tag(k_service, encode_utf8("aws4_request"@))
}

/// Derives the SigV4 signing key.
pub fn derive_key(secret: &str, date: &str, region: &str, service: &str) -> (key: Vec<u8>)
    ensures
        key@ == derive_key_spec(secret@, date@, region@, service@),
        key@.len() == 32,
{
    let mut k = owned("AWS4");
    k.append(secret);
    let k_date = hmac_sha256(k.as_str().as_bytes(), date.as_bytes());
    let k_region = hmac_sha256(k_date.as_slice(), region.as_bytes());
    let k_service = hmac_sha256(k_region.as_slice(), service.as_bytes());
    hmac_sha256(k_service.as_slice(), "aws4_request".as_bytes())
}

/// The credential scope `date/region/s3/aws4_request`.
pub open spec fn credential_scope_spec(date_stamp: Seq<char>, region: Seq<char>) -> Seq<char> {
    date_stamp + "/"@ + region + "/"@ + "s3"@ + "/aws4_request"@
}

fn credential_scope(date_stamp: &str, region: &str) -> (s: String)
    ensures
        s@ == credential_scope_spec(date_stamp@, region@),
{
    let mut s = owned(date_stamp);
    s.append("/");
    s.append(region);
    s.append("/");
    s.append("s3");
    s.append("/aws4_request");
    s
}

/// The string to sign for a canonical request.
pub open spec fn string_to_sign_spec(
    amz_date: Seq<char>,
    scope: Seq<char>,
    canonical_request: Seq<char>,
) -> Seq<char> {
    "AWS4-HMAC-SHA256\n"@ + amz_date + "\n"@ + scope + "\n"@ + sha256_hex_spec(
        encode_utf8(canonical_request),
    )
}

fn string_to_sign(amz_date: &str, scope: &str, canonical_request: &str) -> (s: String)
    ensures
        s@ == string_to_sign_spec(amz_date@, scope@, canonical_request@),
{
    let cr_hash = sha256_hex(canonical_request.as_bytes());
    let mut s = owned("AWS4-HMAC-SHA256\n");
    s.append(amz_date);
    s.append("\n");
    s.append(scope);
    s.append("\n");
    s.append(cr_hash.as_str());
    s
}

/// The signature: the hexadecimal HMAC of the string to sign under the
/// signing key for the date, the region and the `s3` service.
pub open spec fn signature_spec(
    secret: Seq<char>,
    date_stamp: Seq<char>,
    region: Seq<char>,
    string_to_sign: Seq<char>,
) -> Seq<char> {
    hex_lower(
        hmac_sha256_tag(derive_key_spec(secret, date_stamp, region, "s3"@), encode_utf8(string_to_sign)),
    )
}

fn signature(secret: &str, date_stamp: &str, region: &str, string_to_sign: &str) -> (s: String)
    ensures
        s@ == signature_spec(secret@, date_stamp@, region@, string_to_sign@),
        is_lower_hex(s@, 64),
{
    let key = derive_key(secret, date_stamp, region, "s3");
    let mac = hmac_sha256(key.as_slice(), string_to_sign.as_bytes());
    hex_encode(mac.as_slice())
}

// ----------------------------------------------------------------------
// The client configuration
// ----------------------------------------------------------------------

/// The configuration of an S3 client, as values.
pub struct S3View {
    pub endpoint: Seq<char>,
    pub public_endpoint: Seq<char>,
    pub region: Seq<char>,
    pub bucket: Seq<char>,
    pub access_key: Seq<char>,
    pub secret_key: Seq<char>,
    pub path_style: bool,
    pub backend: Backend,
}

/// `s` does not end with `/`.
pub open spec fn no_trailing_slash(s: Seq<char>) -> bool {
    !(s.len() > 0 && s.last() == '/')
}

impl S3View {
    /// The endpoints are kept without trailing slashes.
    pub open spec fn wf(self) -> bool {
        no_trailing_slash(self.endpoint) && no_trailing_slash(self.public_endpoint)
    }
}

/// The configuration of a client of an S3-compatible bucket: where to send
/// requests, where presigned URLs point, and the credentials to sign with.
/// The HTTP transport that sends the requests is kept apart from it.
pub struct S3Storage {
    endpoint: String,
    public_endpoint: String,
    region: String,
    bucket: String,
    access_key: String,
    secret_key: String,
    path_style: bool,
    backend: Backend,
}

impl View for S3Storage {
    type V = S3View;

    closed spec fn view(&self) -> S3View {
        S3View {
            endpoint: self.endpoint@,
            public_endpoint: self.public_endpoint@,
            region: self.region@,
            bucket: self.bucket@,
            access_key: self.access_key@,
            secret_key: self.secret_key@,
            path_style: self.path_style,
            backend: self.backend,
        }
    }
}

proof fn lemma_trim_end_char_no_trailing(s: Seq<char>, c: char)
    ensures
        !(trim_end_char(s, c).len() > 0 && trim_end_char(s, c).last() == c),
    decreases s.len(),
{
    if s.len() > 0 && s.last() == c {
        lemma_trim_end_char_no_trailing(s.drop_last(), c);
    }
}

/// A header name and value, as values.
pub open spec fn header_view(h: (String, String)) -> (Seq<char>, Seq<char>) {
    (h.0@, h.1@)
}

/// Name and value pairs, as values.
pub open spec fn headers_view(hs: Seq<(String, String)>) -> Seq<(Seq<char>, Seq<char>)> {
    hs.map_values(|h: (String, String)| header_view(h))
}

/// An optional string, as a value.
pub open spec fn opt_view(o: Option<&str>) -> Option<Seq<char>> {
    match o {
        Some(s) => Some(s@),
        None => None,
    }
}

/// The canonical headers of a header-signed request.
pub open spec fn canonical_headers_spec(
    content_type: Option<Seq<char>>,
    host: Seq<char>,
    body_hash: Seq<char>,
    amz_date: Seq<char>,
) -> Seq<char> {
    match content_type {
        Some(ct) => "content-type:"@ + ct + "\nhost:"@ + host + "\nx-amz-content-sha256:"@
            + body_hash + "\nx-amz-date:"@ + amz_date + "\n"@,
        None => "host:"@ + host + "\nx-amz-content-sha256:"@ + body_hash + "\nx-amz-date:"@
            + amz_date + "\n"@,
    }
}

/// The names of the signed headers, `;`-separated.
pub open spec fn signed_headers_spec(content_type: Option<Seq<char>>) -> Seq<char> {
    match content_type {
        Some(_) => "content-type;host;x-amz-content-sha256;x-amz-date"@,
        None => "host;x-amz-content-sha256;x-amz-date"@,
    }
}

/// The canonical request of a header-signed request.
pub open spec fn canonical_request_spec(
    method: Seq<char>,
    url_path: Seq<char>,
    query: Seq<char>,
    canonical_headers: Seq<char>,
    signed_headers: Seq<char>,
    body_hash: Seq<char>,
) -> Seq<char> {
    method + "\n"@ + url_path + "\n"@ + query + "\n"@ + canonical_headers + "\n"@
        + signed_headers + "\n"@ + body_hash
}

/// The `Authorization` header value.
pub open spec fn authorization_spec(
    access_key: Seq<char>,
    scope: Seq<char>,
    signed_headers: Seq<char>,
    signature: Seq<char>,
) -> Seq<char> {
    "AWS4-HMAC-SHA256 Credential="@ + access_key + "/"@ + scope + ", SignedHeaders="@
        + signed_headers + ", Signature="@ + signature
}

/// The signature of a header-signed request for `method` on the URL path
/// `path` of host `host`, with the canonical query `query`, the body digest
/// `body_hash` and `content_type`, at the time that `amz_date` and
/// `date_stamp` render.
pub open spec fn request_signature(
    s: S3View,
    method: Seq<char>,
    path: Seq<char>,
    host: Seq<char>,
    query: Seq<char>,
    body_hash: Seq<char>,
    content_type: Option<Seq<char>>,
    amz_date: Seq<char>,
    date_stamp: Seq<char>,
) -> Seq<char> {
    let cr = canonical_request_spec(
        method,
        path,
        query,
        canonical_headers_spec(content_type, host, body_hash, amz_date),
        signed_headers_spec(content_type),
        body_hash,
    );
    let scope = credential_scope_spec(date_stamp, s.region);
    signature_spec(s.secret_key, date_stamp, s.region, string_to_sign_spec(amz_date, scope, cr))
}

/// The headers that sign such a request.
pub open spec fn signed_request_headers(
    s: S3View,
    method: Seq<char>,
    path: Seq<char>,
    host: Seq<char>,
    query: Seq<char>,
    body_hash: Seq<char>,
    content_type: Option<Seq<char>>,
    amz_date: Seq<char>,
    date_stamp: Seq<char>,
) -> Seq<(Seq<char>, Seq<char>)> {
    let scope = credential_scope_spec(date_stamp, s.region);
    let sig = request_signature(
        s,
        method,
        path,
        host,
        query,
        body_hash,
        content_type,
        amz_date,
        date_stamp,
    );
    let base = seq![
        ("x-amz-date"@, amz_date),
        ("x-amz-content-sha256"@, body_hash),
        ("authorization"@, authorization_spec(s.access_key, scope, signed_headers_spec(content_type), sig)),
    ];
    match content_type {
        Some(ct) => base.push(("content-type"@, ct)),
        None => base,
    }
}

fn canonical_headers(content_type: Option<&str>, host: &str, body_hash: &str, amz_date: &str) -> (s:
    String)
    ensures
        s@ == canonical_headers_spec(opt_view(content_type), host@, body_hash@, amz_date@),
{
    let mut s = match content_type {
        Some(ct) => {
            let mut s = owned("content-type:");
            s.append(ct);
            s.append("\nhost:");
            s
        },
        None => owned("host:"),
    };
    s.append(host);
    s.append("\nx-amz-content-sha256:");
    s.append(body_hash);
    s.append("\nx-amz-date:");
    s.append(amz_date);
    s.append("\n");
    s
}

fn signed_headers(content_type: Option<&str>) -> (s: &'static str)
    ensures
        s@ == signed_headers_spec(opt_view(content_type)),
{
    match content_type {
        Some(_) => "content-type;host;x-amz-content-sha256;x-amz-date",
        None => "host;x-amz-content-sha256;x-amz-date",
    }
}

fn pair(name: &str, value: &str) -> (p: (String, String))
    ensures
        header_view(p) == (name@, value@),
{
    (owned(name), owned(value))
}

/// The virtual-hosted URL of object `key` of `bucket` under `endpoint`: the
/// bucket and a dot go right after the scheme's `://` (in front of
/// everything, where the endpoint has no scheme), and the key after a `/`.
pub open spec fn virtual_host_url(endpoint: Seq<char>, bucket: Seq<char>, key: Seq<char>) -> Seq<char> {
    match find_from(endpoint, "://"@, 0) {
        Some(i) => endpoint.subrange(0, i + 3) + bucket + "."@ + endpoint.subrange(
            i + 3,
            endpoint.len() as int,
        ) + "/"@ + key,
        None => bucket + "."@ + endpoint + "/"@ + key,
    }
}

fn virtual_host(endpoint: &str, bucket: &str, key: &str) -> (u: String)
    ensures
        u@ == virtual_host_url(endpoint@, bucket@, key@),
{
    let e = chars_of(endpoint);
    let sep = chars_of("://");
    proof {
        reveal_strlit("://");
        assert(sep@.len() == 3);
        lemma_find_from_bounds(e@, sep@, 0);
    }
    let mut u = match find_chars(&e, &sep, 0) {
        Some(i) => {
            let n = e.len();
            assert(i + 3 <= n);
            let cut = i + 3;
            let mut u = string_of(&slice_chars(&e, 0, cut));
            u.append(bucket);
            u.append(".");
            u.append(string_of(&slice_chars(&e, cut, e.len())).as_str());
            u
        },
        None => {
            let mut u = owned(bucket);
            u.append(".");
            u.append(endpoint);
            u
        },
    };
    u.append("/");
    u.append(key);
    u
}

impl S3Storage {
    /// Builds the configuration. The endpoint is required; the public
    /// endpoint (used in presigned URLs) defaults to it; both lose their
    /// trailing slashes.
    pub fn new(
        backend: Backend,
        endpoint: Option<String>,
        public_endpoint: Option<String>,
        bucket: String,
        region: String,
        access_key: String,
        secret_key: String,
        path_style: bool,
    ) -> (r: Result<Self, StorageError>)
        ensures
            endpoint is None ==> r matches Err(StorageError::MissingEndpoint),
            endpoint matches Some(e) ==> r matches Ok(s) && s@ == (S3View {
                endpoint: trim_end_char(e@, '/'),
                public_endpoint: trim_end_char(
                    match public_endpoint {
                        Some(p) => p@,
                        None => e@,
                    },
                    '/',
                ),
                region: region@,
                bucket: bucket@,
                access_key: access_key@,
                secret_key: secret_key@,
                path_style,
                backend,
            }),
            r matches Ok(s) ==> s@.wf(),
    {
        let endpoint = match endpoint {
            Some(e) => e,
            None => {
                return Err(StorageError::MissingEndpoint);
            },
        };
        let public_ep = match public_endpoint {
            Some(p) => p,
            None => endpoint.clone(),
        };
        let s = S3Storage {
            endpoint: trim_end_matches_char(endpoint.as_str(), '/'),
            public_endpoint: trim_end_matches_char(public_ep.as_str(), '/'),
            region,
            bucket,
            access_key,
            secret_key,
            path_style,
            backend,
        };
        proof {
            lemma_trim_end_char_no_trailing(endpoint@, '/');
            lemma_trim_end_char_no_trailing(public_ep@, '/');
        }
        Ok(s)
    }

    /// The backend the bucket lives on.
    pub fn backend(&self) -> (b: Backend)
        ensures
            b == self@.backend,
    {
        self.backend
    }

    /// The bucket's name.
    pub fn bucket(&self) -> (b: &str)
        ensures
            b@ == self@.bucket,
    {
        self.bucket.as_str()
    }

    /// The URL of object `key` under `endpoint`.
    pub open spec fn host_for_spec(self, endpoint: Seq<char>, key: Seq<char>) -> Seq<char> {
        if self@.path_style {
            trim_end_char(endpoint, '/') + "/"@ + self@.bucket + "/"@ + key
        } else {
            virtual_host_url(endpoint, self@.bucket, key)
        }
    }

    /// The URL of object `key` under `endpoint`. Path style
    /// (`http://host:9000/bucket/key`) trims the endpoint's trailing slashes
    /// first; virtual-hosted style puts the bucket in front of the host name
    /// (`https://bucket.s3.region.amazonaws.com/key`).
    pub fn host_for(&self, endpoint: &str, key: &str) -> (u: String)
        ensures
            u@ == self.host_for_spec(endpoint@, key@),
    {
        if self.path_style {
            let mut u = trim_end_matches_char(endpoint, '/');
            u.append("/");
            u.append(self.bucket.as_str());
            u.append("/");
            u.append(key);
            u
        } else {
            virtual_host(endpoint, self.bucket.as_str(), key)
        }
    }

    /// The SigV4 headers for a request: `x-amz-date`,
    /// `x-amz-content-sha256`, `authorization`, and `content-type` when one
    /// is given. `path` is the URL's path (the canonical URI), `host` the
    /// value of its `Host` header, `query` its canonical query.
    pub fn sign_request(
        &self,
        method: &str,
        path: &str,
        host: &str,
        query: &str,
        body_hash: &str,
        content_type: Option<&str>,
        amz_date: &str,
        date_stamp: &str,
    ) -> (h: Vec<(String, String)>)
        ensures
            headers_view(h@) == signed_request_headers(
                self@,
                method@,
                path@,
                host@,
                query@,
                body_hash@,
                opt_view(content_type),
                amz_date@,
                date_stamp@,
            ),
            is_lower_hex(
                request_signature(
                    self@,
                    method@,
                    path@,
                    host@,
                    query@,
                    body_hash@,
                    opt_view(content_type),
                    amz_date@,
                    date_stamp@,
                ),
                64,
            ),
    {
        let ch = canonical_headers(content_type, host, body_hash, amz_date);
        let sh = signed_headers(content_type);
        let mut cr = owned(method);
        cr.append("\n");
        cr.append(path);
        cr.append("\n");
        cr.append(query);
        cr.append("\n");
        cr.append(ch.as_str());
        cr.append("\n");
        cr.append(sh);
        cr.append("\n");
        cr.append(body_hash);
        let scope = credential_scope(date_stamp, self.region.as_str());
        let sts = string_to_sign(amz_date, scope.as_str(), cr.as_str());
        let sig = signature(self.secret_key.as_str(), date_stamp, self.region.as_str(), sts.as_str());
        let mut auth = owned("AWS4-HMAC-SHA256 Credential=");
        auth.append(self.access_key.as_str());
        auth.append("/");
        auth.append(scope.as_str());
        auth.append(", SignedHeaders=");
        auth.append(sh);
        auth.append(", Signature=");
        auth.append(sig.as_str());
        let mut h: Vec<(String, String)> = Vec::new();
        h.push(pair("x-amz-date", amz_date));
        h.push(pair("x-amz-content-sha256", body_hash));
        h.push(pair("authorization", auth.as_str()));
        if let Some(ct) = content_type {
            h.push(pair("content-type", ct));
        }
        proof {
            let expected = signed_request_headers(
                self@,
                method@,
                path@,
                host@,
                query@,
                body_hash@,
                opt_view(content_type),
                amz_date@,
                date_stamp@,
            );
            assert(headers_view(h@) =~= expected);
        }
        h
    }
}

// ----------------------------------------------------------------------
// Requests
// ----------------------------------------------------------------------

/// The `X-Amz-Date` and credential-scope date for the clock value `now`
/// (seconds since the Unix epoch), or `None` outside chrono's date range.
pub open spec fn amz_dates_spec(now: i64) -> Option<(Seq<char>, Seq<char>)> {
    match (utc_formatted(now, amz_date_format()), utc_formatted(now, date_stamp_format())) {
        (Some(a), Some(d)) => Some((a, d)),
        _ => None,
    }
}

/// Renders the clock value `now` as an `X-Amz-Date` and a scope date.
pub fn amz_dates(now: i64) -> (r: Option<(String, String)>)
    ensures
        match amz_dates_spec(now) {
            None => r is None,
            Some((a, d)) => r matches Some(p) && p.0@ == a && p.1@ == d,
        },
{
    let a = utc_format(now, "%Y%m%dT%H%M%SZ");
    let d = utc_format(now, "%Y%m%d");
    match (a, d) {
        (Some(a), Some(d)) => Some((a, d)),
        _ => None,
    }
}

/// A signed request, ready for the HTTP transport: the URL to send it to and
/// the headers to send with it.
pub struct SignedRequest {
    pub url: String,
    pub headers: Vec<(String, String)>,
}

/// The value of the `Host` header for `host` and the URL's port: the port
/// follows a `:` where the URL names one.
pub open spec fn host_header_spec(host: Seq<char>, port: Option<u16>) -> Seq<char> {
    match port {
        Some(p) => host + ":"@ + decimal(p as nat),
        None => host,
    }
}

fn host_header(host: &str, port: Option<u16>) -> (h: String)
    ensures
        h@ == host_header_spec(host@, port),
{
    let mut h = owned(host);
    if let Some(p) = port {
        h.append(":");
        h.append(decimal_string(p as u64).as_str());
    }
    h
}

/// `r` is the outcome of signing a `method` request to `url` with the
/// canonical query `query`, the body digest `body_hash` and `content_type`,
/// at clock value `now`: an error if the URL does not parse or has no host
/// or the clock is out of range, else the URL with the headers that sign it
/// for its path and its `Host` header (host and port), whose signature is
/// 64 lower-case hexadecimal digits.
pub open spec fn signed_outcome(
    r: Result<SignedRequest, StorageError>,
    s: S3View,
    url: Seq<char>,
    method: Seq<char>,
    query: Seq<char>,
    body_hash: Seq<char>,
    content_type: Option<Seq<char>>,
    now: i64,
) -> bool {
    match url_parts(url) {
        None => r matches Err(StorageError::EndpointParse(_)),
        Some((None, _, _)) => r matches Err(StorageError::NoHost),
        Some((Some(host), port, path)) => match amz_dates_spec(now) {
            None => r matches Err(StorageError::ClockOutOfRange),
            Some((amz, ds)) => {
                let hh = host_header_spec(host, port);
                &&& r matches Ok(req) && req.url@ == url && headers_view(req.headers@)
                    == signed_request_headers(s, method, path, hh, query, body_hash, content_type, amz, ds)
                &&& is_lower_hex(
                    request_signature(s, method, path, hh, query, body_hash, content_type, amz, ds),
                    64,
                )
            },
        },
    }
}

/// The query of a LIST request.
pub open spec fn list_query_spec(prefix: Seq<char>, limit: usize) -> Seq<char> {
    "list-type=2&prefix="@ + urlencode_spec(prefix) + "&max-keys="@ + decimal(limit as nat)
}

/// The canonical form of that query, which a signature covers: the same
/// parameters in ascending order of name.
pub open spec fn list_canonical_query_spec(prefix: Seq<char>, limit: usize) -> Seq<char> {
    "list-type=2&max-keys="@ + decimal(limit as nat) + "&prefix="@ + urlencode_spec(prefix)
}

/// The content type of an upload: the given one, else
/// `application/octet-stream`.
pub open spec fn upload_content_type(content_type: Option<Seq<char>>) -> Seq<char> {
    match content_type {
        Some(ct) => ct,
        None => "application/octet-stream"@,
    }
}

/// Signs a request to `url` at clock value `now`.
fn finish_request(
    s: &S3Storage,
    url: String,
    method: &str,
    query: &str,
    body_hash: &str,
    content_type: Option<&str>,
    now: i64,
) -> (r: Result<SignedRequest, StorageError>)
    ensures
        signed_outcome(r, s@, url@, method@, query@, body_hash@, opt_view(content_type), now),
{
    let parts = match parse_url(url.as_str()) {
        Err(e) => {
            return Err(StorageError::EndpointParse(e));
        },
        Ok(p) => p,
    };
    let host = match parts.host {
        None => {
            return Err(StorageError::NoHost);
        },
        Some(h) => h,
    };
    let (amz, ds) = match amz_dates(now) {
        None => {
            return Err(StorageError::ClockOutOfRange);
        },
        Some(p) => p,
    };
    let hh = host_header(host.as_str(), parts.port);
    let headers = s.sign_request(
        method,
        parts.path.as_str(),
        hh.as_str(),
        query,
        body_hash,
        content_type,
        amz.as_str(),
        ds.as_str(),
    );
    Ok(SignedRequest { url, headers })
}

fn empty_body_hash() -> (h: String)
    ensures
        h@ == sha256_hex_spec(Seq::empty()),
{
    let empty: Vec<u8> = Vec::new();
    sha256_hex(empty.as_slice())
}

impl S3Storage {
    /// The signed request that uploads `data` as object `key` (PUT, with
    /// `application/octet-stream` when no content type is given).
    pub fn put_request_at(&self, key: &str, data: &[u8], content_type: Option<&str>, now: i64) -> (r:
        Result<SignedRequest, StorageError>)
        ensures
            signed_outcome(
                r,
                self@,
                self.host_for_spec(self@.endpoint, key@),
                "PUT"@,
                ""@,
                sha256_hex_spec(data@),
                Some(upload_content_type(opt_view(content_type))),
                now,
            ),
    {
        let ct = match content_type {
            Some(c) => c,
            None => "application/octet-stream",
        };
        let body_hash = sha256_hex(data);
        let url = self.host_for(self.endpoint.as_str(), key);
        finish_request(self, url, "PUT", "", body_hash.as_str(), Some(ct), now)
    }

    /// The signed request that reads object `key` (GET, empty body).
    pub fn get_request_at(&self, key: &str, now: i64) -> (r: Result<SignedRequest, StorageError>)
        ensures
            signed_outcome(
                r,
                self@,
                self.host_for_spec(self@.endpoint, key@),
                "GET"@,
                ""@,
                sha256_hex_spec(Seq::empty()),
                None,
                now,
            ),
    {
        let body_hash = empty_body_hash();
        let url = self.host_for(self.endpoint.as_str(), key);
        finish_request(self, url, "GET", "", body_hash.as_str(), None, now)
    }

    /// The signed request that lists up to `limit` objects under `prefix`
    /// (GET on the bucket with a `list-type=2` query).
    pub fn list_request_at(&self, prefix: &str, limit: usize, now: i64) -> (r: Result<
        SignedRequest,
        StorageError,
    >)
        ensures
            signed_outcome(
                r,
                self@,
                self@.endpoint + "/"@ + self@.bucket + "?"@ + list_query_spec(prefix@, limit),
                "GET"@,
                list_canonical_query_spec(prefix@, limit),
                sha256_hex_spec(Seq::empty()),
                None,
                now,
            ),
    {
        let enc = urlencoding(prefix);
        let lim = decimal_string(limit as u64);
        let mut query = owned("list-type=2&prefix=");
        query.append(enc.as_str());
        query.append("&max-keys=");
        query.append(lim.as_str());
        let mut url = owned(self.endpoint.as_str());
        url.append("/");
        url.append(self.bucket.as_str());
        url.append("?");
        url.append(query.as_str());
        let mut canonical = owned("list-type=2&max-keys=");
        canonical.append(lim.as_str());
        canonical.append("&prefix=");
        canonical.append(enc.as_str());
        let body_hash = empty_body_hash();
        finish_request(self, url, "GET", canonical.as_str(), body_hash.as_str(), None, now)
    }

    /// The signed request that checks the bucket (HEAD on the bucket).
    pub fn ping_request_at(&self, now: i64) -> (r: Result<SignedRequest, StorageError>)
        ensures
            signed_outcome(
                r,
                self@,
                self@.endpoint + "/"@ + self@.bucket,
                "HEAD"@,
                ""@,
                sha256_hex_spec(Seq::empty()),
                None,
                now,
            ),
    {
        let mut url = owned(self.endpoint.as_str());
        url.append("/");
        url.append(self.bucket.as_str());
        let body_hash = empty_body_hash();
        finish_request(self, url, "HEAD", "", body_hash.as_str(), None, now)
    }
}

/// A bucket check succeeds exactly on a 2xx status: the bucket exists and
/// answers.
pub fn ping_status_ok(status: u16) -> (ok: bool)
    ensures
        ok == (200 <= status <= 299),
{
    200 <= status && status <= 299
}

/// A response status is a success: 2xx.
pub fn status_success(status: u16) -> (ok: bool)
    ensures
        ok == (200 <= status <= 299),
{
    200 <= status && status <= 299
}

/// The failure of an upload of `key` answered with `status` (as HTTP
/// shows it, code and reason) and the body `body`.
pub fn put_failure(key: &str, status: &str, body: &str) -> (m: String)
    ensures
        m@ == "PUT "@ + key@ + " -> "@ + status@ + ": "@ + body@,
{
    let mut m = owned("PUT ");
    m.append(key);
    m.append(" -> ");
    m.append(status);
    m.append(": ");
    m.append(body);
    m
}

/// The failure of a read of `key` answered with `status`.
pub fn get_failure(key: &str, status: &str) -> (m: String)
    ensures
        m@ == "GET "@ + key@ + " -> "@ + status@,
{
    let mut m = owned("GET ");
    m.append(key);
    m.append(" -> ");
    m.append(status);
    m
}

/// The failure of a listing answered with `status`.
pub fn list_failure(status: &str) -> (m: String)
    ensures
        m@ == "LIST -> "@ + status@,
{
    let mut m = owned("LIST -> ");
    m.append(status);
    m
}

/// The failure of a bucket check answered with `status`.
pub fn ping_failure(status: &str) -> (m: String)
    ensures
        m@ == "ping status "@ + status@,
{
    let mut m = owned("ping status ");
    m.append(status);
    m
}

// ----------------------------------------------------------------------
// Presigned URLs
// ----------------------------------------------------------------------

/// One `name=value` query parameter, both sides percent-encoded.
pub open spec fn query_pair_spec(p: (Seq<char>, Seq<char>)) -> Seq<char> {
    urlencode_spec(p.0) + "="@ + urlencode_spec(p.1)
}

/// The parameters joined with `&`, in the order given.
pub open spec fn canonical_query_spec(ps: Seq<(Seq<char>, Seq<char>)>) -> Seq<char>
    decreases ps.len(),
{
    if ps.len() == 0 {
        Seq::empty()
    } else if ps.len() == 1 {
        query_pair_spec(ps[0])
    } else {
        canonical_query_spec(ps.drop_last()) + "&"@ + query_pair_spec(ps.last())
    }
}

/// Joins percent-encoded `name=value` pairs with `&`.
pub fn canonical_query(params: &Vec<(String, String)>) -> (q: String)
    ensures
        q@ == canonical_query_spec(headers_view(params@)),
{
    let n = params.len();
    let mut q = String::new();
    let ghost ps = headers_view(params@);
    for i in 0..n
        invariant
            n == params@.len(),
            ps == headers_view(params@),
            q@ == canonical_query_spec(ps.take(i as int)),
    {
        let name = urlencoding(params[i].0.as_str());
        let value = urlencoding(params[i].1.as_str());
        let ghost before = q@;
        if i > 0 {
            q.append("&");
        }
        q.append(name.as_str());
        q.append("=");
        q.append(value.as_str());
        proof {
            let t = ps.take(i + 1);
            assert(t.drop_last() =~= ps.take(i as int));
            assert(t.last() == header_view(params@[i as int]));
            if i == 0 {
                assert(t.len() == 1);
                assert(q@ =~= query_pair_spec(t[0]));
            } else {
                assert(q@ =~= canonical_query_spec(t.drop_last()) + "&"@ + query_pair_spec(t.last()));
            }
        }
    }
    assert(ps.take(n as int) =~= ps);
    q
}

/// The query parameters of a presigned GET, in ascending order of name.
pub open spec fn presign_params_spec(
    credential: Seq<char>,
    amz_date: Seq<char>,
    expires: Seq<char>,
    key: Seq<char>,
) -> Seq<(Seq<char>, Seq<char>)> {
    seq![
        ("X-Amz-Algorithm"@, "AWS4-HMAC-SHA256"@),
        ("X-Amz-Credential"@, credential),
        ("X-Amz-Date"@, amz_date),
        ("X-Amz-Expires"@, expires),
        ("X-Amz-SignedHeaders"@, "host"@),
        ("key"@, key),
    ]
}

/// The URL of object `key` that a presigned GET points to: path style under
/// the public endpoint.
pub open spec fn presign_object_url(s: S3View, key: Seq<char>) -> Seq<char> {
    s.public_endpoint + "/"@ + s.bucket + "/"@ + key
}

/// The canonical query of a presigned GET of `key` for `ttl_secs` seconds
/// from the time that `amz_date` and `date_stamp` render.
pub open spec fn presign_query_spec(
    s: S3View,
    key: Seq<char>,
    ttl_secs: u64,
    amz_date: Seq<char>,
    date_stamp: Seq<char>,
) -> Seq<char> {
    let credential = s.access_key + "/"@ + credential_scope_spec(date_stamp, s.region);
    canonical_query_spec(presign_params_spec(credential, amz_date, decimal(ttl_secs as nat), key))
}

/// The signature of that presigned GET, for the object URL's path `path`
/// and `Host` header `host`: the canonical request is a GET of the path with
/// that query, the one signed header `host`, and an unsigned payload.
pub open spec fn presign_signature(
    s: S3View,
    key: Seq<char>,
    ttl_secs: u64,
    amz_date: Seq<char>,
    date_stamp: Seq<char>,
    path: Seq<char>,
    host: Seq<char>,
) -> Seq<char> {
    let scope = credential_scope_spec(date_stamp, s.region);
    let cr = "GET\n"@ + path + "\n"@ + presign_query_spec(s, key, ttl_secs, amz_date, date_stamp)
        + "\n"@ + "host:"@ + host + "\n"@ + "\n"@ + "host"@ + "\nUNSIGNED-PAYLOAD"@;
    signature_spec(s.secret_key, date_stamp, s.region, string_to_sign_spec(amz_date, scope, cr))
}

/// The presigned GET URL: the object URL, the canonical query, and the
/// signature as the last parameter.
pub open spec fn presigned_url_spec(
    s: S3View,
    key: Seq<char>,
    ttl_secs: u64,
    amz_date: Seq<char>,
    date_stamp: Seq<char>,
    path: Seq<char>,
    host: Seq<char>,
) -> Seq<char> {
    presign_object_url(s, key) + "?"@ + presign_query_spec(s, key, ttl_secs, amz_date, date_stamp)
        + "&X-Amz-Signature="@ + presign_signature(s, key, ttl_secs, amz_date, date_stamp, path, host)
}

/// The canonical URI of a presigned GET of `key`, for the public endpoint
/// whose path is `endpoint_path`: that path without trailing slashes, then
/// `/bucket/key` URI-encoded (each segment percent-encoded, `/` kept).
pub open spec fn presign_path_spec(s: S3View, key: Seq<char>, endpoint_path: Seq<char>) -> Seq<char> {
    trim_end_char(endpoint_path, '/') + "/"@ + uri_path_spec(s.bucket + "/"@ + key)
}

/// `r` is the outcome of presigning a GET of `key` for `ttl_secs` seconds
/// at clock value `now`: an error if the clock is out of range or the public
/// endpoint does not parse or has no host; else the URL signed for the
/// object's path under the endpoint and the endpoint's `Host` header, with a
/// signature of 64 lower-case hexadecimal digits.
pub open spec fn presign_outcome(
    s: S3View,
    key: Seq<char>,
    ttl_secs: u64,
    now: i64,
    r: Result<String, StorageError>,
) -> bool {
    match amz_dates_spec(now) {
        None => r matches Err(StorageError::ClockOutOfRange),
        Some((amz, ds)) => match url_parts(s.public_endpoint) {
            None => r matches Err(StorageError::EndpointParse(_)),
            Some((None, _, _)) => r matches Err(StorageError::NoHost),
            Some((Some(h), port, endpoint_path)) => {
                let hh = host_header_spec(h, port);
                let path = presign_path_spec(s, key, endpoint_path);
                &&& r matches Ok(u) && u@ == presigned_url_spec(s, key, ttl_secs, amz, ds, path, hh)
                &&& is_lower_hex(presign_signature(s, key, ttl_secs, amz, ds, path, hh), 64)
            },
        },
    }
}

impl S3Storage {
    /// A URL that lets its holder GET object `key` for `ttl_secs` seconds
    /// from the clock value `now`, signed in the query string (SigV4 with an
    /// unsigned payload). Fails when the clock is out of range, or when the
    /// public endpoint does not parse or has no host.
    pub fn presigned_get_at(&self, key: &str, ttl_secs: u64, now: i64) -> (r: Result<
        String,
        StorageError,
    >)
        ensures
            presign_outcome(self@, key@, ttl_secs, now, r),
    {
        let (amz_date, date_stamp) = match amz_dates(now) {
            None => {
                return Err(StorageError::ClockOutOfRange);
            },
            Some(p) => p,
        };
        let expires = decimal_string(ttl_secs);
        let parts = match parse_url(self.public_endpoint.as_str()) {
            Err(e) => {
                return Err(StorageError::EndpointParse(e));
            },
            Ok(p) => p,
        };
        let host = match parts.host {
            None => {
                return Err(StorageError::NoHost);
            },
            Some(h) => h,
        };
        let hh = host_header(host.as_str(), parts.port);
        let mut relative = owned(self.bucket.as_str());
        relative.append("/");
        relative.append(key);
        let mut path = trim_end_matches_char(parts.path.as_str(), '/');
        path.append("/");
        path.append(uri_path_encoding(relative.as_str()).as_str());
        let scope = credential_scope(date_stamp.as_str(), self.region.as_str());
        let mut credential = owned(self.access_key.as_str());
        credential.append("/");
        credential.append(scope.as_str());

        let mut params: Vec<(String, String)> = Vec::new();
        params.push(pair("X-Amz-Algorithm", "AWS4-HMAC-SHA256"));
        params.push(pair("X-Amz-Credential", credential.as_str()));
        params.push(pair("X-Amz-Date", amz_date.as_str()));
        params.push(pair("X-Amz-Expires", expires.as_str()));
        params.push(pair("X-Amz-SignedHeaders", "host"));
        params.push(pair("key", key));
        assert(headers_view(params@) =~= presign_params_spec(
            credential@,
            amz_date@,
            expires@,
            key@,
        ));
        let cq = canonical_query(&params);

        let mut cr = owned("GET\n");
        cr.append(path.as_str());
        cr.append("\n");
        cr.append(cq.as_str());
        cr.append("\n");
        cr.append("host:");
        cr.append(hh.as_str());
        cr.append("\n");
        cr.append("\n");
        cr.append("host");
        cr.append("\nUNSIGNED-PAYLOAD");
        let sts = string_to_sign(amz_date.as_str(), scope.as_str(), cr.as_str());
        let sig = signature(
            self.secret_key.as_str(),
            date_stamp.as_str(),
            self.region.as_str(),
            sts.as_str(),
        );
        let mut url = owned(self.public_endpoint.as_str());
        url.append("/");
        url.append(relative.as_str());
        url.append("?");
        url.append(cq.as_str());
        url.append("&X-Amz-Signature=");
        url.append(sig.as_str());
        proof {
            assert(path@ == presign_path_spec(self@, key@, parts.path@));
            assert(cq@ == presign_query_spec(self@, key@, ttl_secs, amz_date@, date_stamp@));
            assert(url@ =~= presigned_url_spec(
                self@,
                key@,
                ttl_secs,
                amz_date@,
                date_stamp@,
                path@,
                hh@,
            ));
        }
        Ok(url)
    }
}

// ----------------------------------------------------------------------
// LIST responses
// ----------------------------------------------------------------------

/// The trimmed text between the first `<tag>` and the first `</tag>` after
/// it, if both occur.
pub open spec fn extract_tag_spec(xml: Seq<char>, tag: Seq<char>) -> Option<Seq<char>> {
    let open = "<"@ + tag + ">"@;
    let close = "</"@ + tag + ">"@;
    match find_from(xml, open, 0) {
        None => None,
        Some(i) => {
            let start = i + open.len();
            match find_from(xml, close, start) {
                None => None,
                Some(end) => Some(trim(xml.subrange(start, end))),
            }
        },
    }
}

/// The trimmed text of the first `<tag>...</tag>` element in `xml`.
pub fn extract_tag(xml: &str, tag: &str) -> (r: Option<String>)
    ensures
        opt_string_view(r) == extract_tag_spec(xml@, tag@),
{
    let x = chars_of(xml);
    let mut open_s = owned("<");
    open_s.append(tag);
    open_s.append(">");
    let mut close_s = owned("</");
    close_s.append(tag);
    close_s.append(">");
    let open = chars_of(open_s.as_str());
    let close = chars_of(close_s.as_str());
    proof {
        lemma_find_from_bounds(x@, open@, 0);
    }
    let i = match find_chars(&x, &open, 0) {
        None => {
            return None;
        },
        Some(i) => i,
    };
    let x_len = x.len();
    assert(i + open@.len() <= x_len);
    let start = i + open.len();
    proof {
        lemma_find_from_bounds(x@, close@, start as int);
    }
    let end = match find_chars(&x, &close, start) {
        None => {
            return None;
        },
        Some(e) => e,
    };
    let inner = slice_chars(&x, start, end);
    let t = trim_chars(&inner);
    Some(string_of(&t))
}

/// The object that a `<Contents>` chunk of a LIST response describes: its
/// `Key` (empty if absent), its `Size` (0 if absent or not a number), its
/// `ETag`.
pub open spec fn object_from_chunk(chunk: Seq<char>) -> ObjectInfoView {
    ObjectInfoView {
        key: match extract_tag_spec(chunk, "Key"@) {
            Some(k) => k,
            None => Seq::empty(),
        },
        size: match extract_tag_spec(chunk, "Size"@) {
            Some(s) => match parse_u64_spec(s) {
                Some(n) => n,
                None => 0,
            },
            None => 0,
        },
        content_type: None,
        etag: extract_tag_spec(chunk, "ETag"@),
        last_modified: None,
    }
}

/// The objects of the chunks that hold a `<Key>`, in order.
pub open spec fn keyed_objects(chunks: Seq<Seq<char>>) -> Seq<ObjectInfoView>
    decreases chunks.len(),
{
    if chunks.len() == 0 {
        Seq::empty()
    } else {
        let rest = keyed_objects(chunks.drop_last());
        if contains_seq(chunks.last(), "<Key>"@) {
            rest.push(object_from_chunk(chunks.last()))
        } else {
            rest
        }
    }
}

/// The first `limit` objects that a LIST response body lists (all of them
/// when there are fewer).
pub open spec fn listed_objects(body: Seq<char>, limit: usize) -> Seq<ObjectInfoView> {
    let items = keyed_objects(split_spec(body, "</Contents>"@));
    items.take(if items.len() < limit {
        items.len() as int
    } else {
        limit as int
    })
}

proof fn lemma_keyed_objects_prefix(chunks: Seq<Seq<char>>, i: int, j: int)
    requires
        0 <= i <= j <= chunks.len(),
    ensures
        keyed_objects(chunks.take(i)).len() <= keyed_objects(chunks.take(j)).len(),
        keyed_objects(chunks.take(i)) == keyed_objects(chunks.take(j)).take(
            keyed_objects(chunks.take(i)).len() as int,
        ),
    decreases j - i,
{
    if i < j {
        lemma_keyed_objects_prefix(chunks, i, j - 1);
        assert(chunks.take(j).drop_last() =~= chunks.take(j - 1));
        let a = keyed_objects(chunks.take(i));
        let b = keyed_objects(chunks.take(j - 1));
        let c = keyed_objects(chunks.take(j));
        assert(c.take(a.len() as int) =~= b.take(a.len() as int));
    } else {
        let a = keyed_objects(chunks.take(i));
        assert(a.take(a.len() as int) =~= a);
    }
}

/// The objects listed in a LIST response body, in document order, at most
/// `limit` of them.
pub fn parse_list_body(body: &str, limit: usize) -> (out: Vec<ObjectInfo>)
    ensures
        out@.map_values(|o: ObjectInfo| o@) == listed_objects(body@, limit),
{
    let chars = chars_of(body);
    let sep = chars_of("</Contents>");
    proof {
        reveal_strlit("</Contents>");
    }
    let chunks = split_chars(&chars, &sep);
    let ghost cs = split_spec(body@, "</Contents>"@);
    let key_open = chars_of("<Key>");
    let mut out: Vec<ObjectInfo> = Vec::new();
    let n = chunks.len();
    let mut i: usize = 0;
    let mut done = limit == 0;
    while i < n && !done
        invariant
            n == cs.len(),
            i <= n,
            key_open@ == "<Key>"@,
            forall|k: int| 0 <= k < chunks@.len() ==> #[trigger] chunks@[k]@ == cs[k],
            chunks@.len() == n,
            out@.map_values(|o: ObjectInfo| o@) == keyed_objects(cs.take(i as int)),
            out@.len() <= limit,
            !done ==> out@.len() < limit,
            done ==> out@.len() == limit,
        decreases n - i,
    {
        assert(cs.take(i + 1).drop_last() =~= cs.take(i as int));
        assert(cs.take(i + 1).last() == cs[i as int]);
        if find_chars(&chunks[i], &key_open, 0).is_some() {
            let chunk = string_of(&chunks[i]);
            let key = match extract_tag(chunk.as_str(), "Key") {
                Some(k) => k,
                None => String::new(),
            };
            let size = match extract_tag(chunk.as_str(), "Size") {
                Some(s) => {
                    let digits = chars_of(s.as_str());
                    match parse_u64(&digits) {
                        Some(v) => v,
                        None => 0,
                    }
                },
                None => 0,
            };
            let etag = extract_tag(chunk.as_str(), "ETag");
            let info = ObjectInfo { key, size, content_type: None, etag, last_modified: None };
            assert(info@ == object_from_chunk(cs[i as int]));
            let ghost before = out@;
            out.push(info);
            assert(out@.map_values(|o: ObjectInfo| o@) =~= before.map_values(|o: ObjectInfo| o@).push(info@));
            if out.len() >= limit {
                done = true;
            }
        }
        i = i + 1;
    }
    proof {
        let items = keyed_objects(cs);
        assert(cs.take(n as int) =~= cs);
        lemma_keyed_objects_prefix(cs, i as int, n as int);
        let o = out@.map_values(|o: ObjectInfo| o@);
        if done {
            assert(o =~= items.take(o.len() as int));
        } else {
            assert(i == n);
            assert(o =~= items);
            assert(items.take(items.len() as int) =~= items);
        }
    }
    out
}

// ----------------------------------------------------------------------
// Laws
// ----------------------------------------------------------------------

/// The presign parameters are already in ascending order of name, so
/// sorting them (as SigV4's canonical query demands) leaves them as they are.
pub proof fn lemma_presign_params_sorted(
    credential: Seq<char>,
    amz_date: Seq<char>,
    expires: Seq<char>,
    key: Seq<char>,
)
    ensures
        forall|i: int|
            0 <= i < 5 ==> lex_lt(
                #[trigger] presign_params_spec(credential, amz_date, expires, key)[i].0,
                presign_params_spec(credential, amz_date, expires, key)[i + 1].0,
            ),
{
    reveal_strlit("X-Amz-Algorithm");
    reveal_strlit("X-Amz-Credential");
    reveal_strlit("X-Amz-Date");
    reveal_strlit("X-Amz-Expires");
    reveal_strlit("X-Amz-SignedHeaders");
    reveal_strlit("key");
    reveal_with_fuel(lex_lt, 8);
    let p = presign_params_spec(credential, amz_date, expires, key);
    assert(lex_lt(p[0].0, p[1].0));
    assert(lex_lt(p[1].0, p[2].0));
    assert(lex_lt(p[2].0, p[3].0));
    assert(lex_lt(p[3].0, p[4].0));
    assert(lex_lt(p[4].0, p[5].0));
}

/// Two configurations that differ only in their secret key give presigned
/// URLs that agree up to the signature: the secret reaches the URL only
/// through it.
pub proof fn lemma_presigned_secret_only_in_signature(
    s1: S3View,
    s2: S3View,
    key: Seq<char>,
    ttl_secs: u64,
    amz_date: Seq<char>,
    date_stamp: Seq<char>,
    path: Seq<char>,
    host: Seq<char>,
)
    requires
        s1 == (S3View { secret_key: s1.secret_key, ..s2 }),
    ensures
        presign_object_url(s1, key) + "?"@ + presign_query_spec(s1, key, ttl_secs, amz_date, date_stamp)
            == presign_object_url(s2, key) + "?"@ + presign_query_spec(s2, key, ttl_secs, amz_date, date_stamp),
        presigned_url_spec(s1, key, ttl_secs, amz_date, date_stamp, path, host)
            == presign_object_url(s1, key) + "?"@ + presign_query_spec(s1, key, ttl_secs, amz_date, date_stamp)
            + "&X-Amz-Signature="@ + presign_signature(s1, key, ttl_secs, amz_date, date_stamp, path, host),
{
}

/// The SigV4 signing key, written out: HMAC-SHA256 chained from `AWS4` and
/// the secret over the date, the region, `s3` and `aws4_request`.
proof fn lemma_signing_key_chain(secret: Seq<char>, date: Seq<char>, region: Seq<char>)
    ensures
        derive_key_spec(secret, date, region, "s3"@) == hmac_sha256_tag(
            hmac_sha256_tag(
                hmac_sha256_tag(
                    hmac_sha256_tag(encode_utf8("AWS4"@ + secret), encode_utf8(date)),
                    encode_utf8(region),
                ),
                encode_utf8("s3"@),
            ),
            encode_utf8("aws4_request"@),
        ),
{
}

proof fn lemma_scope_text(date_stamp: Seq<char>, region: Seq<char>)
    ensures
        credential_scope_spec(date_stamp, region) == date_stamp + "/"@ + region + "/s3/aws4_request"@,
{
    reveal_strlit("/");
    reveal_strlit("s3");
    reveal_strlit("/aws4_request");
    reveal_strlit("/s3/aws4_request");
    assert(credential_scope_spec(date_stamp, region) =~= date_stamp + "/"@ + region
        + "/s3/aws4_request"@);
}

/// The canonical query of a presigned GET, written out pair by pair.
proof fn lemma_presign_query_text(credential: Seq<char>, amz_date: Seq<char>, expires: Seq<char>, key: Seq<char>)
    ensures
        canonical_query_spec(presign_params_spec(credential, amz_date, expires, key)) == (
        urlencode_spec("X-Amz-Algorithm"@) + "="@ + urlencode_spec("AWS4-HMAC-SHA256"@)) + "&"@ + (
        urlencode_spec("X-Amz-Credential"@) + "="@ + urlencode_spec(credential)) + "&"@ + (
        urlencode_spec("X-Amz-Date"@) + "="@ + urlencode_spec(amz_date)) + "&"@ + (urlencode_spec(
            "X-Amz-Expires"@,
        ) + "="@ + urlencode_spec(expires)) + "&"@ + (urlencode_spec("X-Amz-SignedHeaders"@) + "="@
            + urlencode_spec("host"@)) + "&"@ + (urlencode_spec("key"@) + "="@ + urlencode_spec(key)),
{
    let ps = presign_params_spec(credential, amz_date, expires, key);
    let p1 = ps.take(1);
    let p2 = ps.take(2);
    let p3 = ps.take(3);
    let p4 = ps.take(4);
    let p5 = ps.take(5);
    assert(ps.drop_last() =~= p5);
    assert(p5.drop_last() =~= p4);
    assert(p4.drop_last() =~= p3);
    assert(p3.drop_last() =~= p2);
    assert(p2.drop_last() =~= p1);
    assert(canonical_query_spec(p1) == query_pair_spec(ps[0]));
    assert(canonical_query_spec(p2) == canonical_query_spec(p1) + "&"@ + query_pair_spec(ps[1]));
    assert(canonical_query_spec(p3) == canonical_query_spec(p2) + "&"@ + query_pair_spec(ps[2]));
    assert(canonical_query_spec(p4) == canonical_query_spec(p3) + "&"@ + query_pair_spec(ps[3]));
    assert(canonical_query_spec(p5) == canonical_query_spec(p4) + "&"@ + query_pair_spec(ps[4]));
    assert(canonical_query_spec(ps) == canonical_query_spec(p5) + "&"@ + query_pair_spec(ps[5]));
}

/// A header-signed request carries SigV4's signature: the hexadecimal
/// HMAC-SHA256, under the key chained from the configured secret, the
/// request's date and the configured region for `s3`, of the string to sign
/// whose credential scope names that same date and region and whose last
/// line is the digest of the canonical request (method, path, query, the
/// signed headers with the host, and the body digest). The `Authorization`
/// header names the access key with that same scope, the signed headers and
/// that signature.
pub proof fn lemma_header_signature_is_sigv4(
    s: S3View,
    method: Seq<char>,
    path: Seq<char>,
    host: Seq<char>,
    query: Seq<char>,
    body_hash: Seq<char>,
    content_type: Option<Seq<char>>,
    amz_date: Seq<char>,
    date_stamp: Seq<char>,
)
    ensures
        ({
            let scope = date_stamp + "/"@ + s.region + "/s3/aws4_request"@;
            let ct_line = match content_type {
                Some(ct) => "content-type:"@ + ct + "\n"@,
                None => Seq::<char>::empty(),
            };
            let ct_name = match content_type {
                Some(_) => "content-type;"@,
                None => Seq::<char>::empty(),
            };
            let sh = ct_name + "host;x-amz-content-sha256;x-amz-date"@;
            let cr = method + "\n"@ + path + "\n"@ + query + "\n"@ + ct_line + "host:"@ + host
                + "\nx-amz-content-sha256:"@ + body_hash + "\nx-amz-date:"@ + amz_date + "\n"@
                + "\n"@ + sh + "\n"@ + body_hash;
            let sts = "AWS4-HMAC-SHA256\n"@ + amz_date + "\n"@ + scope + "\n"@ + hex_lower(
                sha256_digest(encode_utf8(cr)),
            );
            let k = hmac_sha256_tag(
                hmac_sha256_tag(
                    hmac_sha256_tag(
                        hmac_sha256_tag(encode_utf8("AWS4"@ + s.secret_key), encode_utf8(date_stamp)),
                        encode_utf8(s.region),
                    ),
                    encode_utf8("s3"@),
                ),
                encode_utf8("aws4_request"@),
            );
            let sig = hex_lower(hmac_sha256_tag(k, encode_utf8(sts)));
            let h = signed_request_headers(
                s,
                method,
                path,
                host,
                query,
                body_hash,
                content_type,
                amz_date,
                date_stamp,
            );
            &&& request_signature(
                s,
                method,
                path,
                host,
                query,
                body_hash,
                content_type,
                amz_date,
                date_stamp,
            ) == sig
            &&& h[0] == ("x-amz-date"@, amz_date)
            &&& h[1] == ("x-amz-content-sha256"@, body_hash)
            &&& h[2] == ("authorization"@, "AWS4-HMAC-SHA256 Credential="@ + s.access_key + "/"@
                + scope + ", SignedHeaders="@ + sh + ", Signature="@ + sig)
        }),
{
    lemma_signing_key_chain(s.secret_key, date_stamp, s.region);
    let scope = date_stamp + "/"@ + s.region + "/s3/aws4_request"@;
    lemma_scope_text(date_stamp, s.region);
    let ct_line = match content_type {
        Some(ct) => "content-type:"@ + ct + "\n"@,
        None => Seq::<char>::empty(),
    };
    let ct_name = match content_type {
        Some(_) => "content-type;"@,
        None => Seq::<char>::empty(),
    };
    let sh = ct_name + "host;x-amz-content-sha256;x-amz-date"@;
    let cr = method + "\n"@ + path + "\n"@ + query + "\n"@ + ct_line + "host:"@ + host
        + "\nx-amz-content-sha256:"@ + body_hash + "\nx-amz-date:"@ + amz_date + "\n"@ + "\n"@
        + sh + "\n"@ + body_hash;
    reveal_strlit("content-type:");
    reveal_strlit("\nhost:");
    reveal_strlit("host:");
    reveal_strlit("\n");
    reveal_strlit("content-type;");
    reveal_strlit("host;x-amz-content-sha256;x-amz-date");
    reveal_strlit("content-type;host;x-amz-content-sha256;x-amz-date");
    assert(signed_headers_spec(content_type) =~= sh);
    assert(canonical_request_spec(
        method,
        path,
        query,
        canonical_headers_spec(content_type, host, body_hash, amz_date),
        signed_headers_spec(content_type),
        body_hash,
    ) =~= cr);
}

/// A presigned URL carries SigV4's query signature: the object URL, the
/// parameters (algorithm, the credential of the access key with the scope
/// of the date and the configured region, the date, the validity, the signed
/// header `host`, and the key) percent-encoded and joined in order, and last
/// the hexadecimal HMAC-SHA256, under the key chained from the configured
/// secret, that date and that same region, of the string to sign whose
/// credential scope is the one the credential names and whose last line is
/// the digest of the canonical request (a GET of `path` with that query, the
/// header `host`, and an unsigned payload).
pub proof fn lemma_presigned_url_is_sigv4(
    s: S3View,
    key: Seq<char>,
    ttl_secs: u64,
    amz_date: Seq<char>,
    date_stamp: Seq<char>,
    path: Seq<char>,
    host: Seq<char>,
)
    ensures
        ({
            let scope = date_stamp + "/"@ + s.region + "/s3/aws4_request"@;
            let q = (urlencode_spec("X-Amz-Algorithm"@) + "="@ + urlencode_spec("AWS4-HMAC-SHA256"@))
                + "&"@ + (urlencode_spec("X-Amz-Credential"@) + "="@ + urlencode_spec(
                s.access_key + "/"@ + scope,
            )) + "&"@ + (urlencode_spec("X-Amz-Date"@) + "="@ + urlencode_spec(amz_date)) + "&"@
                + (urlencode_spec("X-Amz-Expires"@) + "="@ + urlencode_spec(decimal(ttl_secs as nat)))
                + "&"@ + (urlencode_spec("X-Amz-SignedHeaders"@) + "="@ + urlencode_spec("host"@))
                + "&"@ + (urlencode_spec("key"@) + "="@ + urlencode_spec(key));
            let cr = "GET\n"@ + path + "\n"@ + q + "\n"@ + "host:"@ + host + "\n"@ + "\n"@ + "host"@
                + "\nUNSIGNED-PAYLOAD"@;
            let sts = "AWS4-HMAC-SHA256\n"@ + amz_date + "\n"@ + scope + "\n"@ + hex_lower(
                sha256_digest(encode_utf8(cr)),
            );
            let k = hmac_sha256_tag(
                hmac_sha256_tag(
                    hmac_sha256_tag(
                        hmac_sha256_tag(encode_utf8("AWS4"@ + s.secret_key), encode_utf8(date_stamp)),
                        encode_utf8(s.region),
                    ),
                    encode_utf8("s3"@),
                ),
                encode_utf8("aws4_request"@),
            );
            let sig = hex_lower(hmac_sha256_tag(k, encode_utf8(sts)));
            presigned_url_spec(s, key, ttl_secs, amz_date, date_stamp, path, host)
                == s.public_endpoint + "/"@ + s.bucket + "/"@ + key + "?"@ + q + "&X-Amz-Signature="@
                + sig
        }),
{
    lemma_signing_key_chain(s.secret_key, date_stamp, s.region);
    let scope = date_stamp + "/"@ + s.region + "/s3/aws4_request"@;
    lemma_scope_text(date_stamp, s.region);
    lemma_presign_query_text(s.access_key + "/"@ + scope, amz_date, decimal(ttl_secs as nat), key);
}

/// A listed object's size is the number that its `Size` element holds, for
/// every `u64`.
pub proof fn lemma_listed_size_is_the_size_tag(chunk: Seq<char>, n: u64)
    requires
        extract_tag_spec(chunk, "Size"@) == Some(decimal(n as nat)),
    ensures
        object_from_chunk(chunk).size == n,
{
    lemma_parse_decimal_roundtrip(n);
}

/// A listing returns at most `limit` objects.
pub proof fn lemma_listing_respects_limit(body: Seq<char>, limit: usize)
    ensures
        listed_objects(body, limit).len() <= limit,
{
}

/// The presigned URL's `X-Amz-Expires` parameter is the requested validity,
/// in seconds.
pub proof fn lemma_presigned_expiry_is_ttl(
    credential: Seq<char>,
    amz_date: Seq<char>,
    key: Seq<char>,
    ttl_secs: u64,
)
    ensures
        presign_params_spec(credential, amz_date, decimal(ttl_secs as nat), key).contains(
            ("X-Amz-Expires"@, decimal(ttl_secs as nat)),
        ),
{
    let p = presign_params_spec(credential, amz_date, decimal(ttl_secs as nat), key);
    assert(p[3] == ("X-Amz-Expires"@, decimal(ttl_secs as nat)));
}

// ----------------------------------------------------------------------
// Requests at the current time
// ----------------------------------------------------------------------

impl S3Storage {
    /// A presigned GET URL of object `key`, valid for `ttl_secs` seconds from
    /// now: the outcome of `presigned_get_at` for the clock value read, which
    /// chrono can always render.
    pub fn presigned_get(&self, key: &str, ttl_secs: u64) -> (r: Result<String, StorageError>)
        ensures
            exists|now: i64|
                amz_dates_spec(now) is Some && #[trigger] presign_outcome(self@, key@, ttl_secs, now, r),
            !(r matches Err(StorageError::ClockOutOfRange)),
    {
        let now = clock_now();
        self.presigned_get_at(key, ttl_secs, now)
    }

    /// The signed upload of `data` as object `key`, signed now.
    pub fn put_request(&self, key: &str, data: &[u8], content_type: Option<&str>) -> (r: Result<
        SignedRequest,
        StorageError,
    >)
        ensures
            exists|now: i64|
                amz_dates_spec(now) is Some && #[trigger] signed_outcome(
                    r,
                    self@,
                    self.host_for_spec(self@.endpoint, key@),
                    "PUT"@,
                    ""@,
                    sha256_hex_spec(data@),
                    Some(upload_content_type(opt_view(content_type))),
                    now,
                ),
            !(r matches Err(StorageError::ClockOutOfRange)),
    {
        let now = clock_now();
        self.put_request_at(key, data, content_type, now)
    }

    /// The signed read of object `key`, signed now.
    pub fn get_request(&self, key: &str) -> (r: Result<SignedRequest, StorageError>)
        ensures
            exists|now: i64|
                amz_dates_spec(now) is Some && #[trigger] signed_outcome(
                    r,
                    self@,
                    self.host_for_spec(self@.endpoint, key@),
                    "GET"@,
                    ""@,
                    sha256_hex_spec(Seq::empty()),
                    None,
                    now,
                ),
            !(r matches Err(StorageError::ClockOutOfRange)),
    {
        let now = clock_now();
        self.get_request_at(key, now)
    }

    /// The signed listing of up to `limit` objects under `prefix`, signed
    /// now.
    pub fn list_request(&self, prefix: &str, limit: usize) -> (r: Result<SignedRequest, StorageError>)
        ensures
            exists|now: i64|
                amz_dates_spec(now) is Some && #[trigger] signed_outcome(
                    r,
                    self@,
                    self@.endpoint + "/"@ + self@.bucket + "?"@ + list_query_spec(prefix@, limit),
                    "GET"@,
                    list_canonical_query_spec(prefix@, limit),
                    sha256_hex_spec(Seq::empty()),
                    None,
                    now,
                ),
            !(r matches Err(StorageError::ClockOutOfRange)),
    {
        let now = clock_now();
        self.list_request_at(prefix, limit, now)
    }

    /// The signed bucket check, signed now.
    pub fn ping_request(&self) -> (r: Result<SignedRequest, StorageError>)
        ensures
            exists|now: i64|
                amz_dates_spec(now) is Some && #[trigger] signed_outcome(
                    r,
                    self@,
                    self@.endpoint + "/"@ + self@.bucket,
                    "HEAD"@,
                    ""@,
                    sha256_hex_spec(Seq::empty()),
                    None,
                    now,
                ),
            !(r matches Err(StorageError::ClockOutOfRange)),
    {
        let now = clock_now();
        self.ping_request_at(now)
    }
}

} // verus!
