//! Job: download a file from a public URL and store it in the bucket under
//! `media/<media_id>/<lang>/source.<ext>`.

use vstd::prelude::*;

use super::{arg_or, arg_or_default, required_arg, JobArgs, JobError};
use crate::text::{chars_of, owned, slice_chars, string_of};

verus! {

/// How long a download may take, in seconds.
pub const HTTP_TIMEOUT_SECS: u64 = 600;

/// The text after the last `.` of `s`, or all of `s` when it has none (the
/// first piece of std's `str::rsplit('.')`).
pub open spec fn after_last_dot(s: Seq<char>) -> Seq<char>
    decreases s.len(),
{
    if s.len() == 0 {
        s
    } else if s.last() == '.' {
        Seq::empty()
    } else {
        after_last_dot(s.drop_last()).push(s.last())
    }
}

/// `c` is an ASCII letter or digit.
pub open spec fn is_ascii_alnum(c: char) -> bool {
    ('A' <= c <= 'Z') || ('a' <= c <= 'z') || ('0' <= c <= '9')
}

/// The extension of a download: the text after the URL's last `.` when it
/// is at most five bytes of ASCII letters and digits, else `mp4`.
pub open spec fn url_extension(url: Seq<char>) -> Seq<char> {
    let e = after_last_dot(url);
    if vstd::utf8::encode_utf8(e).len() <= 5 && (forall|i: int|
        0 <= i < e.len() ==> is_ascii_alnum(#[trigger] e[i])) {
        e
    } else {
        "mp4"@
    }
}

/// The extension of a download URL.
pub fn extension(url: &str) -> (e: String)
    ensures
        e@ == url_extension(url@),
{
    let v = chars_of(url);
    let n = v.len();
    let mut lo = n;
    assert(v@.subrange(0, n as int) =~= v@);
    assert(v@.subrange(n as int, n as int) =~= Seq::<char>::empty());
    while lo > 0 && v[lo - 1] != '.'
        invariant
            lo <= n,
            n == v@.len(),
            after_last_dot(v@) == after_last_dot(v@.subrange(0, lo as int)) + v@.subrange(
                lo as int,
                n as int,
            ),
        decreases lo,
    {
        let ghost p = v@.subrange(0, lo as int);
        assert(p.drop_last() =~= v@.subrange(0, lo - 1));
        assert(v@.subrange(lo - 1, n as int) =~= seq![p.last()] + v@.subrange(lo as int, n as int));
        lo = lo - 1;
    }
    proof {
        assert(after_last_dot(v@.subrange(0, lo as int)) =~= Seq::empty());
        assert(after_last_dot(v@) =~= v@.subrange(lo as int, n as int));
    }
    let last = string_of(&slice_chars(&v, lo, n));
    let mut ok = last.as_str().as_bytes().len() <= 5;
    let m = n - lo;
    let mut i: usize = lo;
    while ok && i < n
        invariant
            lo <= i <= n,
            n == v@.len(),
            last@ == v@.subrange(lo as int, n as int),
            ok ==> forall|k: int| lo <= k < i ==> is_ascii_alnum(#[trigger] v@[k]),
            ok ==> vstd::utf8::encode_utf8(last@).len() <= 5,
            !ok ==> !(vstd::utf8::encode_utf8(last@).len() <= 5 && (forall|k: int|
                0 <= k < last@.len() ==> is_ascii_alnum(#[trigger] last@[k]))),
        decreases n - i,
    {
        let c = v[i];
        if !(('A' <= c && c <= 'Z') || ('a' <= c && c <= 'z') || ('0' <= c && c <= '9')) {
            assert(last@[i - lo] == c);
            ok = false;
        }
        i = i + 1;
    }
    if ok {
        assert forall|k: int| 0 <= k < last@.len() implies is_ascii_alnum(#[trigger] last@[k]) by {
            assert(last@[k] == v@[lo + k]);
        }
        last
    } else {
        owned("mp4")
    }
}

proof fn lemma_after_last_dot_of_suffix(p: Seq<char>, e: Seq<char>)
    requires
        forall|i: int| 0 <= i < e.len() ==> #[trigger] e[i] != '.',
    ensures
        after_last_dot(p + seq!['.'] + e) == e,
    decreases e.len(),
{
    let s = p + seq!['.'] + e;
    if e.len() == 0 {
        assert(s.last() == '.');
    } else {
        assert(s.drop_last() =~= p + seq!['.'] + e.drop_last());
        assert(s.last() == e.last());
        lemma_after_last_dot_of_suffix(p, e.drop_last());
        assert(e.drop_last().push(e.last()) =~= e);
    }
}

proof fn lemma_ascii_utf8_len(e: Seq<char>)
    requires
        forall|i: int| 0 <= i < e.len() ==> is_ascii_alnum(#[trigger] e[i]),
    ensures
        vstd::utf8::encode_utf8(e).len() == e.len(),
    decreases e.len(),
{
    if e.len() > 0 {
        lemma_ascii_utf8_len(e.drop_first());
        assert(e.drop_first() =~= e.subrange(1, e.len() as int));
        vstd::utf8::encode_utf8_first_scalar(e);
    }
}

/// The extension of a download is the text after the URL's last `.`: for
/// any text before it (dots included, as in a host name), one to five ASCII
/// letters and digits after the last dot are the extension; a URL that ends
/// in a dot, or whose last part is longer or holds another character, gets
/// `mp4`.
pub proof fn lemma_extension_follows_the_last_dot(p: Seq<char>, e: Seq<char>)
    ensures
        (e.len() <= 5 && forall|i: int| 0 <= i < e.len() ==> is_ascii_alnum(#[trigger] e[i]))
            ==> url_extension(p + seq!['.'] + e) == e,
        (forall|i: int| 0 <= i < e.len() ==> #[trigger] e[i] != '.') && !(e.len() <= 5 && forall|
            i: int,
        | 0 <= i < e.len() ==> is_ascii_alnum(#[trigger] e[i])) ==> url_extension(
            p + seq!['.'] + e,
        ) == "mp4"@,
{
    if forall|i: int| 0 <= i < e.len() ==> #[trigger] e[i] != '.' {
        lemma_after_last_dot_of_suffix(p, e);
        if forall|i: int| 0 <= i < e.len() ==> is_ascii_alnum(#[trigger] e[i]) {
            lemma_ascii_utf8_len(e);
        }
    } else if e.len() <= 5 && forall|i: int| 0 <= i < e.len() ==> is_ascii_alnum(#[trigger] e[i]) {
        let k = choose|k: int| 0 <= k < e.len() && #[trigger] e[k] == '.';
        assert(is_ascii_alnum(e[k]));
    }
}

/// What a download fetches and where it stores it.
#[derive(Debug)]
pub struct DownloadJob {
    pub media_id: String,
    pub source_url: String,
    pub lang: String,
    pub key: String,
}

/// The object key of a title's source file: `media/<id>/<lang>/source.<ext>`.
pub open spec fn source_key(media_id: Seq<char>, lang: Seq<char>, ext: Seq<char>) -> Seq<char> {
    "media/"@ + media_id + "/"@ + lang + "/source."@ + ext
}

/// The object key of a title's source file.
pub fn source_key_of(media_id: &str, lang: &str, ext: &str) -> (k: String)
    ensures
        k@ == source_key(media_id@, lang@, ext@),
{
    let mut k = owned("media/");
    k.append(media_id);
    k.append("/");
    k.append(lang);
    k.append("/source.");
    k.append(ext);
    k
}

/// The download that the arguments describe: `media_id` and `source_url`
/// are required, in that order; `lang` defaults to `es-ES`.
pub fn plan(args: &JobArgs) -> (r: Result<DownloadJob, JobError>)
    ensures
        match r {
            Ok(j) => args@.contains_key("media_id"@) && args@.contains_key("source_url"@) && j.media_id@
                == args@["media_id"@] && j.source_url@ == args@["source_url"@] && j.lang@ == arg_or(
                args@,
                "lang"@,
                "es-ES"@,
            ) && j.key@ == source_key(j.media_id@, j.lang@, url_extension(j.source_url@)),
            Err(e) => (!args@.contains_key("media_id"@) && e.message@ == "missing media_id"@) || (
            args@.contains_key("media_id"@) && !args@.contains_key("source_url"@) && e.message@
                == "missing source_url"@),
        },
{
    let media_id = required_arg(args, "media_id", "missing media_id")?;
    let source_url = required_arg(args, "source_url", "missing source_url")?;
    let lang = arg_or_default(args, "lang", "es-ES");
    let ext = extension(source_url.as_str());
    let key = source_key_of(media_id.as_str(), lang.as_str(), ext.as_str());
    Ok(DownloadJob { media_id: media_id.clone(), source_url: source_url.clone(), lang, key })
}

} // verus!
