use isracard_payment::text::{
    decimal_string, escape_html, is_ascii_text, is_whitespace, parse_i64, parse_u32, parse_u64,
    str_eq, trim,
};

#[test]
fn trim_removes_unicode_white_space() {
    assert_eq!(trim("  hello \u{a0}\n"), "hello");
    assert_eq!(trim("\u{3000}x y\u{2003}"), "x y");
    assert_eq!(trim(" \t\r\n "), "");
    assert_eq!(trim(""), "");
    assert_eq!(trim("inner  space"), "inner  space");
    // U+200B is not white space.
    assert_eq!(trim("\u{200b}a"), "\u{200b}a");
}

#[test]
fn whitespace_matches_std() {
    for c in ['\t', '\n', '\u{b}', '\u{c}', '\r', ' ', '\u{85}', '\u{a0}', '\u{1680}', '\u{2000}',
        '\u{200a}', '\u{2028}', '\u{2029}', '\u{202f}', '\u{205f}', '\u{3000}', 'a', '\u{200b}', '\0',
        '\u{180e}', 'я']
    {
        assert_eq!(is_whitespace(c), c.is_whitespace(), "{:?}", c);
    }
}

#[test]
fn ascii_text_is_english_only() {
    assert!(is_ascii_text("Hello, World! 123"));
    assert!(is_ascii_text("a-b_c~{}[]@#$%^&*()"));
    assert!(is_ascii_text(""));
    assert!(!is_ascii_text("Привет"));
    assert!(!is_ascii_text("café"));
    assert!(!is_ascii_text("tab\there"));
    assert!(!is_ascii_text("line\nbreak"));
}

#[test]
fn escape_html_replaces_markup() {
    assert_eq!(escape_html("a<b>&c"), "a&lt;b&gt;&amp;c");
    assert_eq!(escape_html("&amp;"), "&amp;amp;");
    assert_eq!(escape_html(""), "");
}

#[test]
fn escaped_text_has_no_tags() {
    let e = escape_html("<script>alert('x')</script> & <b>");
    assert!(!e.contains('<') && !e.contains('>'));
}

#[test]
fn escape_keeps_plain_text() {
    assert_eq!(escape_html("Plain text, 100% fine"), "Plain text, 100% fine");
}

#[test]
fn parse_u32_follows_std() {
    for s in ["42", "+42", "-1", "", "+", "-", "4294967295", "4294967296", " 1", "1 ", "00012",
        "-0", "12a", "99999999999"]
    {
        assert_eq!(parse_u32(s), s.parse::<u32>().ok(), "{:?}", s);
    }
}

#[test]
fn parse_u64_follows_std() {
    for s in ["0", "18446744073709551615", "18446744073709551616", "+7", "-7", "7.0"] {
        assert_eq!(parse_u64(s), s.parse::<u64>().ok(), "{:?}", s);
    }
}

#[test]
fn parse_i64_follows_std() {
    for s in ["-9223372036854775808", "-9223372036854775809", "9223372036854775807",
        "9223372036854775808", "-0", "+5", "-", "--1", "-100123456"]
    {
        assert_eq!(parse_i64(s), s.parse::<i64>().ok(), "{:?}", s);
    }
}

#[test]
fn decimal_string_follows_display() {
    for n in [0u64, 7, 10, 99, 1000000, u64::MAX] {
        assert_eq!(decimal_string(n), n.to_string());
    }
}

#[test]
fn decimal_reads_back() {
    for n in [0u32, 1, 42, 1_000_000, u32::MAX] {
        assert_eq!(parse_u32(&decimal_string(n as u64)), Some(n));
    }
    for n in [0u64, 5, u64::MAX] {
        assert_eq!(parse_u64(&decimal_string(n)), Some(n));
    }
}

#[test]
fn str_eq_compares_characters() {
    assert!(str_eq("confirm", "confirm"));
    assert!(!str_eq("confirm", "cancel"));
    assert!(!str_eq("abc", "abcd"));
    assert!(str_eq("", ""));
}

fn unescape(t: &str) -> String {
    let mut out = String::new();
    let mut rest = t;
    while let Some(c) = rest.chars().next() {
        if rest.starts_with("&amp;") {
            out.push('&');
            rest = &rest[5..];
        } else if rest.starts_with("&lt;") {
            out.push('<');
            rest = &rest[4..];
        } else if rest.starts_with("&gt;") {
            out.push('>');
            rest = &rest[4..];
        } else {
            out.push(c);
            rest = &rest[c.len_utf8()..];
        }
    }
    out
}

#[test]
fn escape_decodes_back() {
    for s in ["a<b>&c", "&amp;lt;", "&lt;", "", "plain", "<<&&>>", "Кофе & чай"] {
        assert_eq!(unescape(&escape_html(s)), s);
    }
    assert_ne!(escape_html("&lt;"), escape_html("<"));
}

#[test]
fn escape_changes_only_markup() {
    for s in ["a<b", "x&y", "q>", "plain text", "", "100%"] {
        let has_markup = s.contains('&') || s.contains('<') || s.contains('>');
        assert_eq!(escape_html(s) == s, !has_markup, "{:?}", s);
    }
}
