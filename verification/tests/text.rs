use mup_supervisor::text::{
    append_decimal, char_is_whitespace, chars_of, digit_text, has_prefix, has_substring,
    matches_at, parse_u16_range, prefixed, same_text, trim_range,
};

fn chars(s: &str) -> Vec<char> {
    s.chars().collect()
}

fn trimmed(s: &str) -> String {
    let v = chars_of(s);
    let (start, end) = trim_range(&v, 0, v.len());
    v[start..end].iter().collect()
}

fn parsed(s: &str) -> Option<u16> {
    let v = chars_of(s);
    parse_u16_range(&v, 0, v.len())
}

fn decimal(n: u64) -> String {
    let mut out = String::new();
    append_decimal(&mut out, n);
    out
}

#[test]
fn whitespace_is_what_std_calls_whitespace() {
    for code in 0u32..=0x10ffff {
        if let Some(c) = char::from_u32(code) {
            assert_eq!(char_is_whitespace(c), c.is_whitespace(), "U+{:04X}", code);
        }
    }
}

#[test]
fn chars_of_keeps_every_character() {
    assert_eq!(chars_of(""), Vec::<char>::new());
    assert_eq!(chars_of("a\u{e9}\u{4e2d}\u{1f600}z"), vec!['a', '\u{e9}', '\u{4e2d}', '\u{1f600}', 'z']);
}

#[test]
fn trim_agrees_with_std() {
    let samples = [
        "",
        " ",
        "a",
        "  a  ",
        "\t\n a b \r\n",
        "\u{a0}x\u{3000}",
        "\u{2000}\u{200a}x y\u{2028}\u{2029}",
        "\u{200b}x\u{200b}",
        "\u{85}\u{1680}\u{202f}\u{205f}",
        "x\u{feff}",
    ];
    for s in samples {
        assert_eq!(trimmed(s), s.trim(), "{:?}", s);
    }
}

#[test]
fn trim_range_stays_inside_its_bounds() {
    let v = chars("ab  cd  ef");
    assert_eq!(trim_range(&v, 2, 8), (4, 6));
    assert_eq!(trim_range(&v, 2, 4), (4, 4));
    assert_eq!(trim_range(&v, 3, 3), (3, 3));
    assert_eq!(trim_range(&v, 0, 10), (0, 10));
}

#[test]
fn numbers_are_parsed_as_std_parses_them() {
    let samples = [
        "", "0", "7", "007", "65535", "65536", "70000", "+", "+1", "+0", "-0", "-1", "++1", "+-1",
        "1+", " 1", "1 ", "1_000", "0x10", "1e3", "12a", "a12", "\u{663}", "\u{ff11}", "99999",
        "100000", "000000000000000000000000065535", "18446744073709551616",
    ];
    for s in samples {
        assert_eq!(parsed(s), s.parse::<u16>().ok(), "{:?}", s);
    }
    for n in [0u16, 1, 9, 10, 99, 100, 4000, 5173, 9999, 10000, 65534, 65535] {
        assert_eq!(parsed(&n.to_string()), Some(n));
    }
}

#[test]
fn parse_reads_only_its_range() {
    let v = chars("ab4000cd");
    assert_eq!(parse_u16_range(&v, 2, 6), Some(4000));
    assert_eq!(parse_u16_range(&v, 2, 7), None);
    assert_eq!(parse_u16_range(&v, 3, 3), None);
    assert_eq!(parse_u16_range(&v, 5, 6), Some(0));
}

#[test]
fn decimal_writing() {
    for n in [0u64, 1, 9, 10, 11, 99, 100, 101, 4000, 65535, 4294967295, u64::MAX] {
        assert_eq!(decimal(n), n.to_string());
    }
    let mut out = String::from("port ");
    append_decimal(&mut out, 8080);
    assert_eq!(out, "port 8080");
    for d in 0u8..10 {
        assert_eq!(digit_text(d), d.to_string());
    }
}

#[test]
fn prefixes() {
    assert!(has_prefix(&chars("MUX_SERVER_PORT:1"), &chars("MUX_SERVER_PORT:")));
    assert!(has_prefix(&chars("abc"), &chars("abc")));
    assert!(has_prefix(&chars("abc"), &chars("")));
    assert!(has_prefix(&chars(""), &chars("")));
    assert!(!has_prefix(&chars("ab"), &chars("abc")));
    assert!(!has_prefix(&chars("xabc"), &chars("abc")));
    assert!(!has_prefix(&chars("abd"), &chars("abc")));
}

#[test]
fn substrings() {
    let h = chars("say New Chat now");
    assert!(has_substring(&h, &chars("New Chat")));
    assert!(has_substring(&h, &chars("say")));
    assert!(has_substring(&h, &chars("now")));
    assert!(has_substring(&h, &chars("")));
    assert!(has_substring(&chars(""), &chars("")));
    assert!(!has_substring(&h, &chars("new chat")));
    assert!(!has_substring(&h, &chars("now!")));
    assert!(!has_substring(&chars(""), &chars("a")));
    assert!(!has_substring(&chars("aab"), &chars("aba")));
    assert!(has_substring(&chars("aaab"), &chars("aab")));
    assert!(matches_at(&h, &chars("New"), 4));
    assert!(!matches_at(&h, &chars("New"), 3));
    assert!(!matches_at(&h, &chars("now"), 14));
    assert!(matches_at(&h, &chars(""), 16));
    assert!(!matches_at(&h, &chars(""), 17));
}

#[test]
fn text_equality_and_joining() {
    assert!(same_text("", ""));
    assert!(same_text("mux", "mux"));
    assert!(!same_text("mux", "Mux"));
    assert!(!same_text("mux", "muxx"));
    assert!(!same_text("mux", ""));
    assert_eq!(prefixed("Invalid URL: ", "empty host"), "Invalid URL: empty host");
    assert_eq!(prefixed("", ""), "");
}
