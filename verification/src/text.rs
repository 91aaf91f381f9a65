//! Text helpers shared by the request builders and parsers: conversions
//! between strings and character vectors, searching, splitting, trimming,
//! decimal and hexadecimal rendering, and percent-encoding.

use vstd::prelude::*;

verus! {

broadcast use vstd::string::group_string_axioms;

// ----------------------------------------------------------------------
// Strings and character vectors
// ----------------------------------------------------------------------

/// The characters of `s`, in order.
pub fn chars_of(s: &str) -> (v: Vec<char>)
    ensures
        v@ == s@,
{
    let mut v: Vec<char> = Vec::new();
    for c in it: s.chars()
        invariant
            v@ == it.seq().take(it.index() as int),
            it.seq() == s@,
    {
        v.push(c);
    }
    v
}

/// Appends one character to `s` (std's `String::push`).
#[verifier::external_body]
pub(crate) fn push_char(s: &mut String, c: char)
    ensures
        final(s)@ == old(s)@.push(c),
{
    s.push(c);
}

/// The string made of the characters of `v`, in order.
pub fn string_of(v: &Vec<char>) -> (s: String)
    ensures
        s@ == v@,
{
    let mut s = String::new();
    let n = v.len();
    for i in 0..n
        invariant
            n == v@.len(),
            s@ == v@.take(i as int),
    {
        push_char(&mut s, v[i]);
        assert(v@.take(i + 1) =~= v@.take(i as int).push(v@[i as int]));
    }
    assert(v@.take(n as int) =~= v@);
    s
}

/// A fresh string with the characters of `s`.
pub fn owned(s: &str) -> (r: String)
    ensures
        r@ == s@,
{
    s.to_string()
}

/// Appends the characters of `tail` to `s`.
pub fn append_chars(s: &mut String, tail: &Vec<char>)
    ensures
        final(s)@ == old(s)@ + tail@,
{
    let n = tail.len();
    for i in 0..n
        invariant
            n == tail@.len(),
            s@ == old(s)@ + tail@.take(i as int),
    {
        push_char(s, tail[i]);
        assert(tail@.take(i + 1) =~= tail@.take(i as int).push(tail@[i as int]));
    }
    assert(tail@.take(n as int) =~= tail@);
}

/// Whether the two character vectors are equal.
pub fn chars_eq(a: &Vec<char>, b: &Vec<char>) -> (r: bool)
    ensures
        r == (a@ == b@),
{
    if a.len() != b.len() {
        return false;
    }
    let n = a.len();
    for i in 0..n
        invariant
            n == a@.len(),
            n == b@.len(),
            forall|j: int| 0 <= j < i ==> a@[j] == b@[j],
    {
        if a[i] != b[i] {
            return false;
        }
    }
    assert(a@ =~= b@);
    true
}

/// Whether the two strings hold the same characters.
pub fn str_eq(a: &str, b: &str) -> (r: bool)
    ensures
        r == (a@ == b@),
{
    let va = chars_of(a);
    let vb = chars_of(b);
    chars_eq(&va, &vb)
}

// ----------------------------------------------------------------------
// Searching and splitting
// ----------------------------------------------------------------------

/// `pat` occurs in `s` at index `i`.
pub open spec fn matches_at(s: Seq<char>, pat: Seq<char>, i: int) -> bool {
    0 <= i && i + pat.len() <= s.len() && s.subrange(i, i + pat.len()) == pat
}

/// The first index at or after `from` where `pat` occurs in `s`.
pub open spec fn find_from(s: Seq<char>, pat: Seq<char>, from: int) -> Option<int>
    decreases s.len() + 1 - from,
{
    if from < 0 || from + pat.len() > s.len() {
        None
    } else if matches_at(s, pat, from) {
        Some(from)
    } else {
        find_from(s, pat, from + 1)
    }
}

/// `pat` occurs somewhere in `s`.
pub open spec fn contains_seq(s: Seq<char>, pat: Seq<char>) -> bool {
    find_from(s, pat, 0) is Some
}

/// Whether `pat` occurs in `s` at index `i`.
pub fn match_at(s: &Vec<char>, pat: &Vec<char>, i: usize) -> (r: bool)
    requires
        i <= s@.len(),
    ensures
        r == matches_at(s@, pat@, i as int),
{
    let m = s.len();
    if pat.len() > m - i {
        return false;
    }
    let n = pat.len();
    for j in 0..n
        invariant
            n == pat@.len(),
            m == s@.len(),
            i + n <= m,
            forall|k: int| 0 <= k < j ==> s@[i + k] == pat@[k],
    {
        if s[i + j] != pat[j] {
            return false;
        }
    }
    assert(s@.subrange(i as int, i + pat@.len()) =~= pat@);
    true
}

/// The first index at or after `from` where `pat` occurs in `s`.
pub fn find_chars(s: &Vec<char>, pat: &Vec<char>, from: usize) -> (r: Option<usize>)
    ensures
        r matches Some(i) ==> find_from(s@, pat@, from as int) == Some(i as int),
        r is None ==> find_from(s@, pat@, from as int) is None,
{
    let m = s.len();
    let n = pat.len();
    let mut i = from;
    while i <= m && n <= m - i
        invariant
            m == s@.len(),
            n == pat@.len(),
            from <= i,
            find_from(s@, pat@, from as int) == find_from(s@, pat@, i as int),
        decreases m + 1 - i,
    {
        if match_at(s, pat, i) {
            return Some(i);
        }
        if i == m {
            assert(find_from(s@, pat@, i + 1) is None);
            return None;
        }
        i = i + 1;
    }
    None
}

/// The pieces of `s` between the successive non-overlapping occurrences of
/// `pat`, scanning from index `from` (the shape of std's `str::split`).
pub open spec fn split_from(s: Seq<char>, pat: Seq<char>, from: int) -> Seq<Seq<char>>
    recommends
        pat.len() > 0,
        0 <= from <= s.len(),
    decreases s.len() - from,
{
    if pat.len() == 0 || from < 0 || from > s.len() {
        seq![s.subrange(from, s.len() as int)]
    } else {
        match find_from(s, pat, from) {
            None => seq![s.subrange(from, s.len() as int)],
            Some(i) => if i + pat.len() <= s.len() && i >= from {
                seq![s.subrange(from, i)] + split_from(s, pat, i + pat.len())
            } else {
                seq![s.subrange(from, s.len() as int)]
            },
        }
    }
}

/// The pieces of `s` between the successive occurrences of `pat`.
pub open spec fn split_spec(s: Seq<char>, pat: Seq<char>) -> Seq<Seq<char>> {
    split_from(s, pat, 0)
}

/// A found occurrence lies at or after the starting index and matches.
pub proof fn lemma_find_from_bounds(s: Seq<char>, pat: Seq<char>, from: int)
    ensures
        find_from(s, pat, from) matches Some(i) ==> from <= i && matches_at(s, pat, i),
    decreases s.len() + 1 - from,
{
    if from < 0 || from + pat.len() > s.len() {
    } else if matches_at(s, pat, from) {
    } else {
        lemma_find_from_bounds(s, pat, from + 1);
    }
}

/// Splits `s` at every occurrence of the non-empty `pat`.
pub fn split_chars(s: &Vec<char>, pat: &Vec<char>) -> (pieces: Vec<Vec<char>>)
    requires
        pat@.len() > 0,
    ensures
        pieces@.len() == split_spec(s@, pat@).len(),
        forall|i: int| 0 <= i < pieces@.len() ==> #[trigger] pieces@[i]@ == split_spec(s@, pat@)[i],
{
    let mut pieces: Vec<Vec<char>> = Vec::new();
    let mut pos: usize = 0;
    let m = s.len();
    let ghost done: Seq<Seq<char>> = Seq::empty();
    loop
        invariant
            pat@.len() > 0,
            m == s@.len(),
            pos <= s@.len(),
            pieces@.len() == done.len(),
            forall|i: int| 0 <= i < pieces@.len() ==> #[trigger] pieces@[i]@ == done[i],
            done + split_from(s@, pat@, pos as int) == split_spec(s@, pat@),
        decreases s@.len() - pos,
    {
        let found = find_chars(s, pat, pos);
        proof {
            lemma_find_from_bounds(s@, pat@, pos as int);
        }
        match found {
            None => {
                let piece = slice_chars(s, pos, s.len());
                proof {
                    assert(split_from(s@, pat@, pos as int) == seq![s@.subrange(pos as int, s@.len() as int)]);
                    done = done.push(piece@);
                }
                pieces.push(piece);
                assert(done =~= split_spec(s@, pat@));
                return pieces;
            },
            Some(i) => {
                let piece = slice_chars(s, pos, i);
                proof {
                    let rest = split_from(s@, pat@, i + pat@.len());
                    assert(split_from(s@, pat@, pos as int) == seq![s@.subrange(pos as int, i as int)] + rest);
                    assert(done + (seq![piece@] + rest) =~= done.push(piece@) + rest);
                    done = done.push(piece@);
                }
                pieces.push(piece);
                assert(i + pat@.len() <= s@.len());
                pos = i + pat.len();
            },
        }
    }
}

/// The characters of `s` from index `lo` up to (not including) `hi`.
pub fn slice_chars(s: &Vec<char>, lo: usize, hi: usize) -> (r: Vec<char>)
    requires
        lo <= hi <= s@.len(),
    ensures
        r@ == s@.subrange(lo as int, hi as int),
{
    let mut r: Vec<char> = Vec::new();
    for i in lo..hi
        invariant
            lo <= hi <= s@.len(),
            r@ == s@.subrange(lo as int, i as int),
    {
        r.push(s[i]);
        assert(s@.subrange(lo as int, i + 1) =~= s@.subrange(lo as int, i as int).push(s@[i as int]));
    }
    r
}

// ----------------------------------------------------------------------
// Trimming and case
// ----------------------------------------------------------------------

/// `c` has the Unicode White_Space property (what std's `char::is_whitespace`
/// tests, and therefore what `str::trim` strips).
pub open spec fn is_space(c: char) -> bool {
    let u = c as u32;
    ||| 0x09 <= u <= 0x0d
    ||| u == 0x20
    ||| u == 0x85
    ||| u == 0xa0
    ||| u == 0x1680
    ||| 0x2000 <= u <= 0x200a
    ||| u == 0x2028
    ||| u == 0x2029
    ||| u == 0x202f
    ||| u == 0x205f
    ||| u == 0x3000
}

/// Whether `c` is a Unicode white-space character.
pub fn is_space_char(c: char) -> (r: bool)
    ensures
        r == is_space(c),
{
    let u = c as u32;
    (0x09 <= u && u <= 0x0d) || u == 0x20 || u == 0x85 || u == 0xa0 || u == 0x1680 || (0x2000
        <= u && u <= 0x200a) || u == 0x2028 || u == 0x2029 || u == 0x202f || u == 0x205f || u
        == 0x3000
}

/// `s` without its leading white space.
pub open spec fn trim_start(s: Seq<char>) -> Seq<char>
    decreases s.len(),
{
    if s.len() > 0 && is_space(s[0]) {
        trim_start(s.drop_first())
    } else {
        s
    }
}

/// `s` without its trailing white space.
pub open spec fn trim_end(s: Seq<char>) -> Seq<char>
    decreases s.len(),
{
    if s.len() > 0 && is_space(s.last()) {
        trim_end(s.drop_last())
    } else {
        s
    }
}

/// `s` without leading and trailing white space (std's `str::trim`).
pub open spec fn trim(s: Seq<char>) -> Seq<char> {
    trim_end(trim_start(s))
}

/// The characters of `s` without leading and trailing white space.
pub fn trim_chars(s: &Vec<char>) -> (r: Vec<char>)
    ensures
        r@ == trim(s@),
{
    let n = s.len();
    let mut lo: usize = 0;
    assert(s@.subrange(0, n as int) =~= s@);
    while lo < n && is_space_char(s[lo])
        invariant
            n == s@.len(),
            lo <= n,
            trim_start(s@) == trim_start(s@.subrange(lo as int, n as int)),
        decreases n - lo,
    {
        assert(s@.subrange(lo as int, n as int).drop_first() =~= s@.subrange(lo + 1, n as int));
        lo = lo + 1;
    }
    assert(trim_start(s@) == s@.subrange(lo as int, n as int));
    let mut hi: usize = n;
    while hi > lo && is_space_char(s[hi - 1])
        invariant
            n == s@.len(),
            lo <= hi <= n,
            trim(s@) == trim_end(s@.subrange(lo as int, hi as int)),
        decreases hi,
    {
        assert(s@.subrange(lo as int, hi as int).drop_last() =~= s@.subrange(lo as int, hi - 1));
        hi = hi - 1;
    }
    slice_chars(s, lo, hi)
}

/// `s` with every trailing `c` removed (std's `str::trim_end_matches` with a
/// character pattern).
pub open spec fn trim_end_char(s: Seq<char>, c: char) -> Seq<char>
    decreases s.len(),
{
    if s.len() > 0 && s.last() == c {
        trim_end_char(s.drop_last(), c)
    } else {
        s
    }
}

/// `s` with every trailing `c` removed.
pub fn trim_end_matches_char(s: &str, c: char) -> (r: String)
    ensures
        r@ == trim_end_char(s@, c),
{
    let v = chars_of(s);
    let mut hi: usize = v.len();
    assert(v@.subrange(0, hi as int) =~= v@);
    while hi > 0 && v[hi - 1] == c
        invariant
            hi <= v@.len(),
            trim_end_char(v@, c) == trim_end_char(v@.subrange(0, hi as int), c),
        decreases hi,
    {
        assert(v@.subrange(0, hi as int).drop_last() =~= v@.subrange(0, hi - 1));
        hi = hi - 1;
    }
    let kept = slice_chars(&v, 0, hi);
    string_of(&kept)
}

/// `c` with ASCII upper-case letters mapped to lower case.
pub open spec fn ascii_lower(c: char) -> char {
    if 'A' <= c <= 'Z' {
        ((c as u8) + 32) as char
    } else {
        c
    }
}

/// `s` with ASCII upper-case letters mapped to lower case (std's
/// `str::to_ascii_lowercase`).
pub open spec fn ascii_lowercase(s: Seq<char>) -> Seq<char> {
    s.map_values(|c: char| ascii_lower(c))
}

/// The characters of `s`, ASCII upper-case letters lowered.
pub fn to_ascii_lowercase(s: &str) -> (r: Vec<char>)
    ensures
        r@ == ascii_lowercase(s@),
{
    let v = chars_of(s);
    let mut r: Vec<char> = Vec::new();
    let n = v.len();
    for i in 0..n
        invariant
            n == v@.len(),
            r@ == ascii_lowercase(v@.take(i as int)),
    {
        let c = v[i];
        let l = if 'A' <= c && c <= 'Z' {
            ((c as u8) + 32) as char
        } else {
            c
        };
        r.push(l);
        assert(ascii_lowercase(v@.take(i + 1)) =~= ascii_lowercase(v@.take(i as int)).push(l));
    }
    assert(v@.take(n as int) =~= v@);
    r
}

// ----------------------------------------------------------------------
// Decimal numbers
// ----------------------------------------------------------------------

/// The ASCII digit for `d` (`0 <= d < 10`).
pub open spec fn digit_char(d: int) -> char {
    (d + 48) as char
}

/// The decimal rendering of `n`, without leading zeros (what `Display`
/// prints for unsigned integers).
pub open spec fn decimal(n: nat) -> Seq<char>
    decreases n,
{
    if n < 10 {
        seq![digit_char(n as int)]
    } else {
        decimal(n / 10).push(digit_char((n % 10) as int))
    }
}

fn push_decimal(out: &mut Vec<char>, n: u64)
    ensures
        final(out)@ == old(out)@ + decimal(n as nat),
    decreases n,
{
    if n >= 10 {
        push_decimal(out, n / 10);
    }
    let d = (n % 10) as u8;
    out.push((d + 48) as char);
    assert(old(out)@ + decimal(n as nat) =~= if n >= 10 {
        old(out)@ + decimal((n / 10) as nat) + seq![digit_char((n % 10) as int)]
    } else {
        old(out)@ + seq![digit_char((n % 10) as int)]
    });
}

/// The decimal rendering of `n`.
pub fn decimal_string(n: u64) -> (s: String)
    ensures
        s@ == decimal(n as nat),
{
    let mut v: Vec<char> = Vec::new();
    push_decimal(&mut v, n);
    assert(v@ =~= decimal(n as nat));
    string_of(&v)
}

/// `c` is an ASCII decimal digit.
pub open spec fn is_digit(c: char) -> bool {
    '0' <= c <= '9'
}

/// The value of the ASCII digit `c`.
pub open spec fn digit_value(c: char) -> int {
    (c as int) - 48
}

/// The value of the digit string `s`, most significant digit first.
pub open spec fn digits_value(s: Seq<char>) -> nat
    decreases s.len(),
{
    if s.len() == 0 {
        0
    } else {
        (digits_value(s.drop_last()) * 10 + digit_value(s.last())) as nat
    }
}

/// The digits that `u64::from_str` reads: `s` without one leading `+`.
pub open spec fn unsigned_digits(s: Seq<char>) -> Seq<char> {
    if s.len() > 0 && s[0] == '+' {
        s.drop_first()
    } else {
        s
    }
}

/// What std's `u64::from_str` gives for `s`: `Some` of the value of an
/// optional `+` followed by one or more ASCII digits whose value fits in a
/// `u64`, `None` for anything else.
pub open spec fn parse_u64_spec(s: Seq<char>) -> Option<u64> {
    let d = unsigned_digits(s);
    if d.len() > 0 && (forall|i: int| 0 <= i < d.len() ==> is_digit(#[trigger] d[i]))
        && digits_value(d) <= u64::MAX {
        Some(digits_value(d) as u64)
    } else {
        None
    }
}

/// Parses an unsigned decimal number the way `str::parse::<u64>` does.
pub fn parse_u64(s: &Vec<char>) -> (r: Option<u64>)
    ensures
        r == parse_u64_spec(s@),
{
    let n = s.len();
    let start: usize = if n > 0 && s[0] == '+' {
        1
    } else {
        0
    };
    let ghost d = unsigned_digits(s@);
    assert(d =~= s@.subrange(start as int, n as int));
    if start >= n {
        assert(d.len() == 0);
        return None;
    }
    let mut acc: u64 = 0;
    let mut overflow = false;
    let mut i = start;
    while i < n
        invariant
            n == s@.len(),
            start <= i <= n,
            d == s@.subrange(start as int, n as int),
            d == unsigned_digits(s@),
            forall|k: int| 0 <= k < i - start ==> is_digit(#[trigger] d[k]),
            !overflow ==> acc == digits_value(d.take(i - start)),
            overflow ==> digits_value(d.take(i - start)) > u64::MAX,
        decreases n - i,
    {
        let c = s[i];
        if !('0' <= c && c <= '9') {
            assert(!is_digit(d[i - start]));
            assert(!(forall|k: int| 0 <= k < d.len() ==> is_digit(#[trigger] d[k])));
            assert(unsigned_digits(s@) == d);
            assert(parse_u64_spec(s@) is None);
            return None;
        }
        let dv = (c as u8 - 48) as u64;
        let ghost prev = digits_value(d.take(i - start));
        assert(d.take(i - start + 1).drop_last() =~= d.take(i - start));
        assert(digits_value(d.take(i - start + 1)) == prev * 10 + dv);
        if !overflow {
            if acc > (u64::MAX - dv) / 10 {
                overflow = true;
                assert(prev * 10 + dv > u64::MAX) by (nonlinear_arith)
                    requires
                        prev > (u64::MAX - dv) / 10,
                        dv <= 9,
                ;
            } else {
                assert(acc * 10 + dv <= u64::MAX) by (nonlinear_arith)
                    requires
                        acc <= (u64::MAX - dv) / 10,
                        dv <= 9,
                ;
                acc = acc * 10 + dv;
            }
        } else {
            assert(prev * 10 + dv > u64::MAX) by (nonlinear_arith)
                requires
                    prev > u64::MAX,
                    dv >= 0,
            ;
        }
        i = i + 1;
    }
    assert(d.take(n - start) =~= d);
    if overflow {
        assert(parse_u64_spec(s@) is None);
        None
    } else {
        Some(acc)
    }
}

proof fn lemma_digit_char_value(d: int)
    requires
        0 <= d < 10,
    ensures
        is_digit(digit_char(d)),
        digit_value(digit_char(d)) == d,
{
    assert(digit_char(d) as int == d + 48);
}

proof fn lemma_decimal_digits(n: nat)
    ensures
        decimal(n).len() > 0,
        forall|i: int| 0 <= i < decimal(n).len() ==> is_digit(#[trigger] decimal(n)[i]),
        digits_value(decimal(n)) == n,
    decreases n,
{
    lemma_digit_char_value((n % 10) as int);
    if n >= 10 {
        lemma_decimal_digits(n / 10);
        assert(decimal(n).drop_last() =~= decimal(n / 10));
        assert(decimal(n).last() == digit_char((n % 10) as int));
        assert(digits_value(decimal(n)) == digits_value(decimal(n / 10)) * 10 + digit_value(
            digit_char((n % 10) as int),
        ));
        assert((n / 10) * 10 + n % 10 == n);
    } else {
        assert(decimal(n).drop_last() =~= Seq::<char>::empty());
        assert(decimal(n).last() == digit_char(n as int));
        assert(digits_value(decimal(n)) == digits_value(Seq::<char>::empty()) * 10 + digit_value(
            digit_char(n as int),
        ));
    }
}

/// Rendering a number in decimal and parsing it back gives the number.
pub proof fn lemma_parse_decimal_roundtrip(n: u64)
    ensures
        parse_u64_spec(decimal(n as nat)) == Some(n),
{
    lemma_decimal_digits(n as nat);
    assert(is_digit(decimal(n as nat)[0]));
    assert(unsigned_digits(decimal(n as nat)) == decimal(n as nat));
}

// ----------------------------------------------------------------------
// Hexadecimal and percent-encoding
// ----------------------------------------------------------------------

/// The lower-case hexadecimal digit for `d` (`0 <= d < 16`).
pub open spec fn hex_lower_char(d: int) -> char {
    if d < 10 {
        (d + 48) as char
    } else {
        (d + 87) as char
    }
}

/// The upper-case hexadecimal digit for `d` (`0 <= d < 16`).
pub open spec fn hex_upper_char(d: int) -> char {
    if d < 10 {
        (d + 48) as char
    } else {
        (d + 55) as char
    }
}

fn hex_lower_digit(d: u8) -> (c: char)
    requires
        d < 16,
    ensures
        c == hex_lower_char(d as int),
{
    if d < 10 {
        (d + 48) as char
    } else {
        (d + 87) as char
    }
}

fn hex_upper_digit(d: u8) -> (c: char)
    requires
        d < 16,
    ensures
        c == hex_upper_char(d as int),
{
    if d < 10 {
        (d + 48) as char
    } else {
        (d + 55) as char
    }
}

/// Two lower-case hexadecimal digits per byte, most significant first (what
/// `hex::encode` produces).
pub open spec fn hex_lower(b: Seq<u8>) -> Seq<char>
    decreases b.len(),
{
    if b.len() == 0 {
        Seq::empty()
    } else {
        hex_lower(b.drop_last()) + seq![
            hex_lower_char((b.last() / 16) as int),
            hex_lower_char((b.last() % 16) as int),
        ]
    }
}

/// `c` is a lower-case hexadecimal digit: `0`-`9` or `a`-`f`.
pub open spec fn is_lower_hex_digit(c: char) -> bool {
    ('0' <= c && c <= '9') || ('a' <= c && c <= 'f')
}

/// `s` is a run of `n` lower-case hexadecimal digits.
pub open spec fn is_lower_hex(s: Seq<char>, n: nat) -> bool {
    s.len() == n && forall|i: int| 0 <= i < s.len() ==> is_lower_hex_digit(#[trigger] s[i])
}

/// The encoding has two lower-case hexadecimal digits per byte.
pub proof fn lemma_hex_lower_shape(b: Seq<u8>)
    ensures
        is_lower_hex(hex_lower(b), 2 * b.len()),
    decreases b.len(),
{
    if b.len() > 0 {
        lemma_hex_lower_shape(b.drop_last());
        let x = b.last();
        let h = hex_lower(b);
        let a = hex_lower(b.drop_last());
        assert(is_lower_hex_digit(hex_lower_char((x / 16) as int)));
        assert(is_lower_hex_digit(hex_lower_char((x % 16) as int)));
        assert forall|i: int| 0 <= i < h.len() implies is_lower_hex_digit(#[trigger] h[i]) by {
            if i < a.len() {
                assert(h[i] == a[i]);
            }
        }
    }
}

/// The lower-case hexadecimal encoding of `b`.
pub fn hex_encode(b: &[u8]) -> (s: String)
    ensures
        s@ == hex_lower(b@),
        is_lower_hex(s@, 2 * b@.len()),
{
    proof {
        lemma_hex_lower_shape(b@);
    }
    let mut s = String::new();
    let n = b.len();
    for i in 0..n
        invariant
            n == b@.len(),
            s@ == hex_lower(b@.take(i as int)),
    {
        let x = b[i];
        push_char(&mut s, hex_lower_digit(x / 16));
        push_char(&mut s, hex_lower_digit(x % 16));
        assert(b@.take(i + 1).drop_last() =~= b@.take(i as int));
    }
    assert(b@.take(n as int) =~= b@);
    s
}

/// `b` is left as it is by percent-encoding: an ASCII letter, digit, `-`,
/// `_`, `.` or `~`.
pub open spec fn is_unreserved(b: u8) -> bool {
    ||| 65 <= b <= 90
    ||| 97 <= b <= 122
    ||| 48 <= b <= 57
    ||| b == 45
    ||| b == 95
    ||| b == 46
    ||| b == 126
}

/// The encoding of one byte: itself if unreserved, else `%` and two
/// upper-case hexadecimal digits.
pub open spec fn pct_byte(b: u8) -> Seq<char> {
    if is_unreserved(b) {
        seq![b as char]
    } else {
        seq!['%', hex_upper_char((b / 16) as int), hex_upper_char((b % 16) as int)]
    }
}

/// The percent-encoding of a byte sequence.
pub open spec fn pct_encode(b: Seq<u8>) -> Seq<char>
    decreases b.len(),
{
    if b.len() == 0 {
        Seq::empty()
    } else {
        pct_encode(b.drop_last()) + pct_byte(b.last())
    }
}

/// The percent-encoding of the UTF-8 bytes of `s`.
pub open spec fn urlencode_spec(s: Seq<char>) -> Seq<char> {
    pct_encode(vstd::utf8::encode_utf8(s))
}

/// Percent-encodes the UTF-8 bytes of `s`, keeping only ASCII letters,
/// digits, `-`, `_`, `.` and `~` as they are (spaces become `%20`).
pub fn urlencoding(s: &str) -> (r: String)
    ensures
        r@ == urlencode_spec(s@),
{
    let bytes = s.as_bytes();
    let n = bytes.len();
    let mut out = String::new();
    for i in 0..n
        invariant
            n == bytes@.len(),
            bytes@ == vstd::utf8::encode_utf8(s@),
            out@ == pct_encode(bytes@.take(i as int)),
    {
        let b = bytes[i];
        let unreserved = (65 <= b && b <= 90) || (97 <= b && b <= 122) || (48 <= b && b <= 57)
            || b == 45 || b == 95 || b == 46 || b == 126;
        if unreserved {
            push_char(&mut out, b as char);
        } else {
            push_char(&mut out, '%');
            push_char(&mut out, hex_upper_digit(b / 16));
            push_char(&mut out, hex_upper_digit(b % 16));
        }
        assert(bytes@.take(i + 1).drop_last() =~= bytes@.take(i as int));
        assert(out@ =~= pct_encode(bytes@.take(i as int)) + pct_byte(b));
    }
    assert(bytes@.take(n as int) =~= bytes@);
    out
}

/// The encoding of one byte of a URI path: `/` is kept, any other byte is
/// encoded as in `pct_byte`.
pub open spec fn path_byte(b: u8) -> Seq<char> {
    if b == 47 {
        seq!['/']
    } else {
        pct_byte(b)
    }
}

/// The URI-path encoding of a byte sequence.
pub open spec fn path_encode(b: Seq<u8>) -> Seq<char>
    decreases b.len(),
{
    if b.len() == 0 {
        Seq::empty()
    } else {
        path_encode(b.drop_last()) + path_byte(b.last())
    }
}

/// The URI-path encoding of the UTF-8 bytes of `s`: each segment
/// percent-encoded as `urlencoding` does, the `/` between segments kept.
pub open spec fn uri_path_spec(s: Seq<char>) -> Seq<char> {
    path_encode(vstd::utf8::encode_utf8(s))
}

/// Percent-encodes the UTF-8 bytes of `s` like `urlencoding`, but keeps `/`
/// as it is (the encoding of a URI path for a signature).
pub fn uri_path_encoding(s: &str) -> (r: String)
    ensures
        r@ == uri_path_spec(s@),
{
    let bytes = s.as_bytes();
    let n = bytes.len();
    let mut out = String::new();
    for i in 0..n
        invariant
            n == bytes@.len(),
            bytes@ == vstd::utf8::encode_utf8(s@),
            out@ == path_encode(bytes@.take(i as int)),
    {
        let b = bytes[i];
        let unreserved = (65 <= b && b <= 90) || (97 <= b && b <= 122) || (48 <= b && b <= 57)
            || b == 45 || b == 95 || b == 46 || b == 126;
        if unreserved || b == 47 {
            push_char(&mut out, b as char);
        } else {
            push_char(&mut out, '%');
            push_char(&mut out, hex_upper_digit(b / 16));
            push_char(&mut out, hex_upper_digit(b % 16));
        }
        assert(bytes@.take(i + 1).drop_last() =~= bytes@.take(i as int));
        assert(out@ =~= path_encode(bytes@.take(i as int)) + path_byte(b));
    }
    assert(bytes@.take(n as int) =~= bytes@);
    out
}

/// `c` is an ASCII letter, digit, `-`, `_`, `.` or `~`.
pub open spec fn is_unreserved_char(c: char) -> bool {
    ||| 'A' <= c && c <= 'Z'
    ||| 'a' <= c && c <= 'z'
    ||| '0' <= c && c <= '9'
    ||| c == '-'
    ||| c == '_'
    ||| c == '.'
    ||| c == '~'
}

/// `c` is an upper-case hexadecimal digit: `0`-`9` or `A`-`F`.
pub open spec fn is_upper_hex_digit(c: char) -> bool {
    ('0' <= c && c <= '9') || ('A' <= c && c <= 'F')
}

/// The number of bytes of `b` that percent-encoding escapes.
pub open spec fn escaped_count(b: Seq<u8>) -> nat
    decreases b.len(),
{
    if b.len() == 0 {
        0
    } else {
        escaped_count(b.drop_last()) + if is_unreserved(b.last()) {
            0nat
        } else {
            1nat
        }
    }
}

/// Every character of `t` is unreserved, or a `%` followed by two
/// upper-case hexadecimal digits.
pub open spec fn is_pct_encoded(t: Seq<char>) -> bool {
    forall|i: int|
        0 <= i < t.len() ==> is_unreserved_char(#[trigger] t[i]) || (t[i] == '%' && i + 2 < t.len()
            && is_upper_hex_digit(t[i + 1]) && is_upper_hex_digit(t[i + 2]))
}

proof fn lemma_pct_encode_shape(b: Seq<u8>)
    ensures
        is_pct_encoded(pct_encode(b)),
        pct_encode(b).len() == b.len() + 2 * escaped_count(b),
    decreases b.len(),
{
    if b.len() > 0 {
        lemma_pct_encode_shape(b.drop_last());
        let x = b.last();
        let a = pct_encode(b.drop_last());
        let t = pct_encode(b);
        let p = pct_byte(x);
        let hi = (x / 16) as int;
        let lo = (x % 16) as int;
        assert(is_upper_hex_digit(hex_upper_char(hi)));
        assert(is_upper_hex_digit(hex_upper_char(lo)));
        if is_unreserved(x) {
            assert(is_unreserved_char(x as char));
        }
        assert forall|i: int| 0 <= i < t.len() implies is_unreserved_char(#[trigger] t[i]) || (t[i]
            == '%' && i + 2 < t.len() && is_upper_hex_digit(t[i + 1]) && is_upper_hex_digit(
            t[i + 2],
        )) by {
            if i < a.len() {
                assert(t[i] == a[i]);
                if !is_unreserved_char(a[i]) {
                    assert(t[i + 1] == a[i + 1]);
                    assert(t[i + 2] == a[i + 2]);
                }
            } else {
                assert(t[i] == p[i - a.len()]);
            }
        }
    }
}

/// The output of `urlencoding` holds only unreserved characters and `%`
/// escapes with two upper-case hexadecimal digits, and it is two characters
/// longer than the text's UTF-8 bytes for each byte that was escaped.
pub proof fn lemma_urlencode_shape(s: Seq<char>)
    ensures
        is_pct_encoded(urlencode_spec(s)),
        urlencode_spec(s).len() == vstd::utf8::encode_utf8(s).len() + 2 * escaped_count(
            vstd::utf8::encode_utf8(s),
        ),
{
    lemma_pct_encode_shape(vstd::utf8::encode_utf8(s));
}

proof fn lemma_pct_encode_no_separators(b: Seq<u8>)
    ensures
        forall|i: int|
            0 <= i < pct_encode(b).len() ==> #[trigger] pct_encode(b)[i] != '&' && pct_encode(b)[i]
                != '=',
    decreases b.len(),
{
    if b.len() > 0 {
        lemma_pct_encode_no_separators(b.drop_last());
        let x = b.last();
        assert forall|i: int| 0 <= i < pct_byte(x).len() implies #[trigger] pct_byte(x)[i] != '&'
            && pct_byte(x)[i] != '=' by {
            if is_unreserved(x) {
                assert(x != 38 && x != 61);
            }
        }
        let a = pct_encode(b.drop_last());
        assert forall|i: int| 0 <= i < pct_encode(b).len() implies #[trigger] pct_encode(b)[i]
            != '&' && pct_encode(b)[i] != '=' by {
            if i < a.len() {
                assert(pct_encode(b)[i] == a[i]);
            } else {
                assert(pct_encode(b)[i] == pct_byte(x)[i - a.len()]);
            }
        }
    }
}

/// A percent-encoded text never holds `&` or `=`, so joining encoded names
/// and values with them keeps each pair apart.
pub proof fn lemma_urlencode_has_no_separators(s: Seq<char>)
    ensures
        forall|i: int|
            0 <= i < urlencode_spec(s).len() ==> #[trigger] urlencode_spec(s)[i] != '&'
                && urlencode_spec(s)[i] != '=',
{
    lemma_pct_encode_no_separators(vstd::utf8::encode_utf8(s));
}

/// The value of a hexadecimal digit of either case (0 for any other
/// character).
pub open spec fn hex_value(c: char) -> int {
    if '0' <= c && c <= '9' {
        c as int - 48
    } else if 'A' <= c && c <= 'F' {
        c as int - 55
    } else if 'a' <= c && c <= 'f' {
        c as int - 87
    } else {
        0
    }
}

/// Percent-decoding: `%` followed by two more characters gives the byte that
/// those hexadecimal digits name; any other character gives the byte of its
/// code.
pub open spec fn pct_decode(s: Seq<char>) -> Seq<u8>
    decreases s.len(),
{
    if s.len() == 0 {
        Seq::empty()
    } else if s[0] == '%' && s.len() >= 3 {
        seq![(hex_value(s[1]) * 16 + hex_value(s[2])) as u8] + pct_decode(s.subrange(3, s.len() as int))
    } else {
        seq![s[0] as u8] + pct_decode(s.drop_first())
    }
}

proof fn lemma_pct_decode_byte(x: u8, rest: Seq<char>)
    ensures
        pct_decode(pct_byte(x) + rest) == seq![x] + pct_decode(rest),
{
    let t = pct_byte(x) + rest;
    if is_unreserved(x) {
        assert(t[0] == x as char);
        assert(t.drop_first() =~= rest);
    } else {
        let hi = (x / 16) as int;
        let lo = (x % 16) as int;
        assert(hex_value(hex_upper_char(hi)) == hi);
        assert(hex_value(hex_upper_char(lo)) == lo);
        assert(t[0] == '%' && t[1] == hex_upper_char(hi) && t[2] == hex_upper_char(lo));
        assert(t.subrange(3, t.len() as int) =~= rest);
        assert((hi * 16 + lo) as u8 == x);
    }
}

proof fn lemma_pct_decode_encode(b: Seq<u8>, rest: Seq<char>)
    ensures
        pct_decode(pct_encode(b) + rest) == b + pct_decode(rest),
    decreases b.len(),
{
    if b.len() == 0 {
        assert(pct_encode(b) + rest =~= rest);
        assert(b + pct_decode(rest) =~= pct_decode(rest));
    } else {
        let x = b.last();
        let init = b.drop_last();
        assert(pct_encode(b) + rest =~= pct_encode(init) + (pct_byte(x) + rest));
        lemma_pct_decode_encode(init, pct_byte(x) + rest);
        lemma_pct_decode_byte(x, rest);
        assert(init + (seq![x] + pct_decode(rest)) =~= b + pct_decode(rest));
    }
}

/// Percent-decoding what `urlencoding` wrote gives back the UTF-8 bytes of
/// the text, and decoding those gives back the text.
pub proof fn lemma_urlencode_decodes_back(s: Seq<char>)
    ensures
        pct_decode(urlencode_spec(s)) == vstd::utf8::encode_utf8(s),
        vstd::utf8::decode_utf8(pct_decode(urlencode_spec(s))) == s,
{
    let b = vstd::utf8::encode_utf8(s);
    lemma_pct_decode_encode(b, Seq::empty());
    assert(pct_encode(b) + Seq::<char>::empty() =~= pct_encode(b));
    assert(b + pct_decode(Seq::<char>::empty()) =~= b);
    vstd::utf8::encode_utf8_decode_utf8(s);
}

/// `a` sorts strictly before `b`: lexicographic order of code points
/// (which is the byte order of their UTF-8 encodings, the order of `String`).
pub open spec fn lex_lt(a: Seq<char>, b: Seq<char>) -> bool
    decreases a.len(),
{
    if a.len() == 0 {
        b.len() > 0
    } else if b.len() == 0 {
        false
    } else if a[0] != b[0] {
        (a[0] as u32) < (b[0] as u32)
    } else {
        lex_lt(a.drop_first(), b.drop_first())
    }
}

/// Removing trailing copies of a character twice removes no more than
/// removing them once.
pub proof fn lemma_trim_end_char_idempotent(s: Seq<char>, c: char)
    ensures
        trim_end_char(trim_end_char(s, c), c) == trim_end_char(s, c),
    decreases s.len(),
{
    if s.len() > 0 && s.last() == c {
        lemma_trim_end_char_idempotent(s.drop_last(), c);
    }
}

} // verus!
