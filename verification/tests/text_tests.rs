use movie_worker::text::{
    chars_of, decimal_string, find_chars, hex_encode, parse_u64, split_chars, str_eq, string_of,
    to_ascii_lowercase, trim_chars, trim_end_matches_char, urlencoding,
};

fn s(v: &Vec<char>) -> String {
    string_of(v)
}

#[test]
fn urlencoding_keeps_unreserved_and_escapes_the_rest() {
    assert_eq!(urlencoding("AZaz09-_.~"), "AZaz09-_.~");
    assert_eq!(urlencoding("a b&c=d/e"), "a%20b%26c%3Dd%2Fe");
    assert_eq!(urlencoding("é"), "%C3%A9");
    assert_eq!(urlencoding(""), "");
}

#[test]
fn urlencoding_never_yields_separators() {
    let out = urlencoding("k=v&x=y?&=");
    assert!(!out.contains('&'));
    assert!(!out.contains('='));
}

#[test]
fn decimal_rendering() {
    assert_eq!(decimal_string(0), "0");
    assert_eq!(decimal_string(7), "7");
    assert_eq!(decimal_string(1234567890), "1234567890");
    assert_eq!(decimal_string(u64::MAX), "18446744073709551615");
}

#[test]
fn parse_u64_follows_std() {
    let cases = [
        "0", "42", "+42", "", "+", "-1", "-0", "12a", " 1", "007",
        "18446744073709551615", "18446744073709551616", "99999999999999999999999",
    ];
    for c in cases {
        assert_eq!(parse_u64(&chars_of(c)), c.parse::<u64>().ok(), "input {c:?}");
    }
}

#[test]
fn decimal_then_parse_gives_the_number_back() {
    for n in [0u64, 1, 9, 10, 99, 100, 4096, u64::MAX - 1, u64::MAX] {
        assert_eq!(parse_u64(&chars_of(&decimal_string(n))), Some(n));
    }
}

#[test]
fn hex_encoding_is_lower_case() {
    assert_eq!(hex_encode(&[0x00, 0x0f, 0xa0, 0xff]), "000fa0ff");
    assert_eq!(hex_encode(&[]), "");
    assert_eq!(hex_encode(&[0xde, 0xad, 0xbe, 0xef]), hex::encode([0xde, 0xad, 0xbe, 0xef]));
}

#[test]
fn trimming_matches_std() {
    for c in ["  a b  ", "\t\nx\r\n", "", "   ", "\u{3000}y\u{00a0}", "z"] {
        assert_eq!(s(&trim_chars(&chars_of(c))), c.trim(), "input {c:?}");
    }
}

#[test]
fn trailing_slashes_are_removed() {
    assert_eq!(trim_end_matches_char("http://h:9000///", '/'), "http://h:9000");
    assert_eq!(trim_end_matches_char("http://h", '/'), "http://h");
    assert_eq!(trim_end_matches_char("///", '/'), "");
    let once = trim_end_matches_char("a//", '/');
    assert_eq!(trim_end_matches_char(&once, '/'), once);
}

#[test]
fn ascii_lowercase_matches_std() {
    for c in ["MinIO", "AWS-S3", "Ünïcode ÄB", ""] {
        assert_eq!(s(&to_ascii_lowercase(c)), c.to_ascii_lowercase());
    }
}

#[test]
fn split_matches_std() {
    let pat = chars_of("</C>");
    for c in ["a</C>b</C>", "", "no separator", "</C></C>", "x</C>y</C>z"] {
        let got: Vec<String> = split_chars(&chars_of(c), &pat).iter().map(s).collect();
        let want: Vec<String> = c.split("</C>").map(String::from).collect();
        assert_eq!(got, want, "input {c:?}");
    }
}

#[test]
fn find_gives_the_first_occurrence() {
    let h = chars_of("abcabc");
    assert_eq!(find_chars(&h, &chars_of("bc"), 0), Some(1));
    assert_eq!(find_chars(&h, &chars_of("bc"), 2), Some(4));
    assert_eq!(find_chars(&h, &chars_of("x"), 0), None);
    assert_eq!(find_chars(&h, &chars_of(""), 6), Some(6));
}

#[test]
fn string_equality() {
    assert!(str_eq("abc", "abc"));
    assert!(!str_eq("abc", "abd"));
    assert!(!str_eq("ab", "abc"));
}

fn pct_decode(s: &str) -> Vec<u8> {
    let b = s.as_bytes();
    let mut out = Vec::new();
    let mut i = 0;
    while i < b.len() {
        if b[i] == b'%' && i + 2 < b.len() {
            let h = std::str::from_utf8(&b[i + 1..i + 3]).unwrap();
            out.push(u8::from_str_radix(h, 16).unwrap());
            i += 3;
        } else {
            out.push(b[i]);
            i += 1;
        }
    }
    out
}

#[test]
fn urlencoding_decodes_back() {
    for t in ["", "a b/c", "año ñ~-_.", "%41&=+?", "movies/1/es-ES/source.mp4"] {
        let e = urlencoding(t);
        assert_eq!(String::from_utf8(pct_decode(&e)).unwrap(), t);
    }
}

#[test]
fn urlencoding_alphabet_and_length() {
    for t in ["", "abc", "a b", "ñ/?", "~-_."] {
        let e = urlencoding(t);
        let escaped = t.bytes().filter(|b| !(b.is_ascii_alphanumeric() || b"-_.~".contains(b))).count();
        assert_eq!(e.len(), t.len() + 2 * escaped);
        let c: Vec<char> = e.chars().collect();
        let mut i = 0;
        while i < c.len() {
            if c[i] == '%' {
                assert!(c[i + 1].is_ascii_hexdigit() && !c[i + 1].is_ascii_lowercase());
                assert!(c[i + 2].is_ascii_hexdigit() && !c[i + 2].is_ascii_lowercase());
                i += 3;
            } else {
                assert!(c[i].is_ascii_alphanumeric() || "-_.~".contains(c[i]));
                i += 1;
            }
        }
    }
}

#[test]
fn uri_paths_keep_slashes() {
    assert_eq!(movie_worker::text::uri_path_encoding("media/a b/ñ+(1).mp4"), "media/a%20b/%C3%B1%2B%281%29.mp4");
    assert_eq!(movie_worker::text::uri_path_encoding(""), "");
}
