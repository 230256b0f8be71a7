use sidecar_supervisor::text::{char_is_whitespace, parse_u16, decimal_string, trim_str, strip_prefix_str, trim_start_matches_str, str_eq};

#[test]
fn whitespace_agrees_with_the_standard_library_on_every_character() {
    let mut code: u32 = 0;
    while code <= 0x10FFFF {
        if let Some(c) = char::from_u32(code) {
            assert_eq!(char_is_whitespace(c), c.is_whitespace(), "U+{:04X}", code);
        }
        code += 1;
    }
}

#[test]
fn parse_u16_agrees_with_the_standard_library() {
    let samples = [
        "", "+", "-", "0", "+0", "-0", "8080", "+8080", " 8080", "8080 ", "65535", "65536",
        "000065535", "0000000000000000000000000000001", "99999999999999999999", "12a", "a12",
        "1_000", "++1", "+-1", "0x10", "٣", "１２", "443", "70000",
    ];
    for s in samples {
        assert_eq!(parse_u16(s), s.parse::<u16>().ok(), "{:?}", s);
    }
    let mut n: u32 = 0;
    while n <= 70000 {
        let s = n.to_string();
        assert_eq!(parse_u16(&s), s.parse::<u16>().ok());
        n += 1;
    }
}

#[test]
fn decimal_string_agrees_with_the_standard_library() {
    for n in [0u64, 1, 9, 10, 11, 99, 100, 8080, 65535, 65536, 4294967295, u64::MAX] {
        assert_eq!(decimal_string(n), n.to_string());
    }
}

#[test]
fn trimming_agrees_with_the_standard_library() {
    let samples = [
        "", " ", "  a  ", "\t\n a b \r\n", "a", "\u{3000}x\u{2003}", "\u{200B}x", "/app", " /app/ ",
        "\u{85}\u{A0}y\u{1680}", "é è", "  ",
    ];
    for s in samples {
        assert_eq!(trim_str(s), s.trim(), "{:?}", s);
        assert_eq!(trim_start_matches_str(s, '/'), s.trim_start_matches('/'), "{:?}", s);
        assert_eq!(trim_start_matches_str(s, ' '), s.trim_start_matches(' '), "{:?}", s);
    }
    assert_eq!(trim_start_matches_str("///a/b/", '/'), "a/b/");
    assert_eq!(trim_start_matches_str("////", '/'), "");
}

#[test]
fn strip_prefix_agrees_with_the_standard_library() {
    let cases = [
        ("--port=8080", "--port="), ("--port", "--port="), ("--port=", "--port="),
        ("", ""), ("abc", ""), ("", "a"), ("é=1", "é="), ("--host=é", "--host="),
        ("--base_url=/x", "--base-url="),
    ];
    for (s, p) in cases {
        assert_eq!(strip_prefix_str(s, p), s.strip_prefix(p), "{:?} {:?}", s, p);
    }
}

#[test]
fn str_eq_compares_characters() {
    assert!(str_eq("", ""));
    assert!(str_eq("--port", "--port"));
    assert!(!str_eq("--port", "--port="));
    assert!(!str_eq("-p", "-P"));
    assert!(!str_eq("é", "e"));
}
