use playleft_core::error::PlaywLeftError;
use playleft_core::json::{quoted, Json, JsonNumber};
use playleft_core::text::{
    char_is_whitespace, contains_str, find, i64_to_decimal, parse_usize_str, trimmed, u64_to_decimal,
};

fn obj(fields: Vec<(&str, Json)>) -> Json {
    Json::Object(fields.into_iter().map(|(k, v)| (k.to_string(), v)).collect())
}

fn s(v: &str) -> Json {
    Json::Str(v.to_string())
}

#[test]
fn json_get_takes_first_member_and_misses_cleanly() {
    let j = obj(vec![("a", s("x")), ("b", Json::Bool(true)), ("a", s("y"))]);
    assert_eq!(j.get("a"), Some(&s("x")));
    assert_eq!(j.get("b"), Some(&Json::Bool(true)));
    assert_eq!(j.get("c"), None);
    assert_eq!(s("x").get("a"), None);
    assert_eq!(j.at("c"), Json::Null);
    assert_eq!(j.str_at("a"), Some("x"));
    assert_eq!(j.str_at("b"), None);
}

#[test]
fn json_numbers_read_as_serde_json_reads_them() {
    let big = Json::Number(JsonNumber::PosInt(u64::MAX));
    assert_eq!(big.as_u64(), Some(u64::MAX));
    assert_eq!(big.as_i64(), None);
    let neg = Json::Number(JsonNumber::NegInt(-7));
    assert_eq!(neg.as_u64(), None);
    assert_eq!(neg.as_i64(), Some(-7));
    let small = Json::Number(JsonNumber::PosInt(42));
    assert_eq!(small.as_i64(), Some(42));
    let float = Json::Number(JsonNumber::Float(1.5f64.to_bits()));
    assert_eq!(float.as_u64(), None);
    assert_eq!(float.as_i64(), None);
    assert_eq!(Json::signed(-3), Json::Number(JsonNumber::NegInt(-3)));
    assert_eq!(Json::signed(3), Json::Number(JsonNumber::PosInt(3)));
}

#[test]
fn json_duplicate_copies_deeply() {
    let j = obj(vec![
        ("list", Json::Array(vec![s("a"), Json::Null, Json::Number(JsonNumber::PosInt(1))])),
        ("nested", obj(vec![("k", Json::Bool(false))])),
    ]);
    assert_eq!(j.duplicate(), j);
    assert_eq!(j.clone(), j);
}

#[test]
fn json_items_at_lists_array_items_or_nothing() {
    let j = obj(vec![("xs", Json::Array(vec![s("a"), s("b")])), ("n", Json::Null)]);
    assert_eq!(j.items_at("xs"), vec![s("a"), s("b")]);
    assert_eq!(j.items_at("n"), Vec::<Json>::new());
    assert_eq!(j.items_at("missing"), Vec::<Json>::new());
}

#[test]
fn quoted_escapes_like_json() {
    assert_eq!(quoted("div.item"), "\"div.item\"");
    assert_eq!(quoted("a\"b\\c"), "\"a\\\"b\\\\c\"");
    assert_eq!(quoted("\n\t\r\u{8}\u{c}"), "\"\\n\\t\\r\\b\\f\"");
    assert_eq!(quoted("\u{1}\u{1f}"), "\"\\u0001\\u001f\"");
    assert_eq!(quoted("é\u{7f}"), "\"é\u{7f}\"");
}

#[test]
fn decimal_rendering() {
    assert_eq!(u64_to_decimal(0), "0");
    assert_eq!(u64_to_decimal(30000), "30000");
    assert_eq!(u64_to_decimal(u64::MAX), "18446744073709551615");
    assert_eq!(i64_to_decimal(-1), "-1");
    assert_eq!(i64_to_decimal(i64::MIN), "-9223372036854775808");
    assert_eq!(i64_to_decimal(i64::MAX), "9223372036854775807");
}

#[test]
fn trimming_matches_str_trim() {
    for sample in ["  ws://127.0.0.1:9222/devtools  ", "\u{3000}x\u{a0}", "", "   ", "a b"] {
        assert_eq!(trimmed(sample), sample.trim());
    }
    assert!(char_is_whitespace('\u{2028}'));
    assert!(!char_is_whitespace('\u{200b}'));
}

#[test]
fn find_gives_first_character_position() {
    assert_eq!(find("abc ws:// ws://", "ws://"), Some(4));
    assert_eq!(find("é ws://", "ws://"), Some(2));
    assert_eq!(find("nothing here", "ws://"), None);
    assert_eq!(find("abc", ""), Some(0));
    assert!(contains_str("Cannot start the browser process!", "Cannot start"));
    assert!(!contains_str("short", "longer than short"));
}

#[test]
fn parse_usize_matches_str_parse() {
    for sample in ["0", "42", "+7", "007", "", "+", "-1", "1a", " 1", "18446744073709551615", "18446744073709551616", "length"] {
        assert_eq!(parse_usize_str(sample), sample.parse::<usize>().ok(), "{sample}");
    }
}

#[test]
fn error_messages_render_like_display() {
    assert_eq!(PlaywLeftError::BrowserError("boom".to_string()).message(), "Browser error: boom");
    assert_eq!(
        PlaywLeftError::ProtocolError { code: -32601, message: "nope".to_string() }.message(),
        "Protocol error: nope (code: -32601)"
    );
    assert_eq!(PlaywLeftError::SessionClosed.message(), "Session closed");
    assert_eq!(PlaywLeftError::Timeout("t".to_string()).message(), "Timeout: t");
    let io = PlaywLeftError::IoError(std::io::Error::new(std::io::ErrorKind::Other, "disk"));
    assert_eq!(io.message(), "IO error: disk");
    assert_eq!(PlaywLeftError::Internal("x".to_string()).message(), "Internal error: x");
    assert!(matches!(
        PlaywLeftError::protocol(-1, "m"),
        PlaywLeftError::ProtocolError { code: -1, ref message } if message == "m"
    ));
}
