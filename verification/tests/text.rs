use nexus_runtime::json::append_json_escaped;
use nexus_runtime::text::{append_decimal, append_signed_decimal, bytes_to_text, starts_with};

fn decimal(n: u64) -> String {
    let mut s = String::from("n=");
    append_decimal(&mut s, n);
    s
}

fn signed(n: i64) -> String {
    let mut s = String::new();
    append_signed_decimal(&mut s, n);
    s
}

#[test]
fn decimals_are_written_without_leading_zeros() {
    assert_eq!(decimal(0), "n=0");
    assert_eq!(decimal(7), "n=7");
    assert_eq!(decimal(10), "n=10");
    assert_eq!(decimal(1_234_567_890), "n=1234567890");
    assert_eq!(decimal(u64::MAX), "n=18446744073709551615");
}

#[test]
fn decimals_read_back() {
    for n in [0u64, 9, 10, 99, 100, 65_535, u64::MAX] {
        assert_eq!(decimal(n)[2..].parse::<u64>().unwrap(), n);
    }
}

#[test]
fn signed_decimals_cover_both_ends() {
    assert_eq!(signed(0), "0");
    assert_eq!(signed(-1), "-1");
    assert_eq!(signed(42), "42");
    assert_eq!(signed(i64::MAX), i64::MAX.to_string());
    assert_eq!(signed(i64::MIN), "-9223372036854775808");
}

#[test]
fn prefixes_are_compared_by_character() {
    assert!(starts_with("/start now", "/start"));
    assert!(starts_with("anything", ""));
    assert!(!starts_with("/sta", "/start"));
    assert!(!starts_with("/stirt", "/start"));
    assert!(starts_with("жук", "жу"));
    assert!(!starts_with("жук", "жа"));
}

#[test]
fn bytes_are_shown_as_text() {
    assert_eq!(bytes_to_text("привет".as_bytes()), "привет");
    assert_eq!(bytes_to_text(b""), "");
    assert_eq!(bytes_to_text(&[b'a', 0xff, b'b']), "a\u{fffd}b");
}

#[test]
fn text_is_escaped_for_json() {
    let escaped = |text: &str| {
        let mut s = String::from("=");
        append_json_escaped(&mut s, text);
        s
    };
    assert_eq!(escaped(""), "=");
    assert_eq!(escaped("plain / text"), "=plain / text");
    assert_eq!(escaped("a\"b\\c"), "=a\\\"b\\\\c");
    assert_eq!(escaped("\n\r\t"), "=\\n\\r\\t");
    assert_eq!(escaped("\0\u{1f} \u{7f}жук"), "=\\u0000\\u001f \u{7f}жук");
}

#[test]
fn escaped_text_denotes_itself() {
    let all: String = (0u32..0x300).filter_map(char::from_u32).collect();
    for text in [all.as_str(), "\\\\\"", "\\u0041", "\u{1f600}"] {
        let mut literal = String::from("\"");
        append_json_escaped(&mut literal, text);
        literal.push('"');
        assert_eq!(serde_json::from_str::<String>(&literal).unwrap(), text);
    }
}
