use tavily_mcp_rs::json::{string_items, JsonNumber, JsonValue};
use tavily_mcp_rs::text::{chars_of, concat_str, contains_str, is_blank_line, join_with_newlines};

fn s(t: &str) -> JsonValue {
    JsonValue::String(t.to_string())
}

#[test]
fn blank_lines() {
    assert!(is_blank_line(""));
    assert!(is_blank_line("  \t\r\n"));
    assert!(is_blank_line("\u{3000}\u{2028}\u{a0}\u{85}"));
    assert!(!is_blank_line(" x "));
    assert!(!is_blank_line("\u{200b}"));
}

#[test]
fn substring_search() {
    assert!(contains_str("latest news today", "news"));
    assert!(contains_str("news", "news"));
    assert!(!contains_str("new", "news"));
    assert!(!contains_str("NEWS", "news"));
    assert!(contains_str("abc", ""));
}

#[test]
fn string_helpers() {
    assert_eq!(concat_str("ab", "cd"), "abcd");
    assert_eq!(chars_of("héllo"), vec!['h', 'é', 'l', 'l', 'o']);
    assert_eq!(join_with_newlines(&vec![]), "");
    assert_eq!(join_with_newlines(&vec!["a".to_string()]), "a");
    assert_eq!(join_with_newlines(&vec!["a".to_string(), "".to_string(), "b".to_string()]), "a\n\nb");
}

#[test]
fn object_member_lookup() {
    let v = JsonValue::Object(vec![
        ("method".to_string(), s("list_tools")),
        ("id".to_string(), JsonValue::Number(JsonNumber::PosInt(7))),
    ]);
    assert_eq!(v.get("method").and_then(|m| m.as_str()), Some("list_tools"));
    assert_eq!(v.get("id").and_then(|m| m.as_i64()), Some(7));
    assert!(v.get("params").is_none());
    assert!(s("x").get("method").is_none());
}

#[test]
fn scalar_readers() {
    assert_eq!(JsonValue::Bool(true).as_bool(), Some(true));
    assert_eq!(s("x").as_bool(), None);
    assert_eq!(JsonValue::Number(JsonNumber::NegInt(-4)).as_i64(), Some(-4));
    assert_eq!(JsonValue::Number(JsonNumber::PosInt(u64::MAX)).as_i64(), None);
    assert_eq!(JsonValue::Number(JsonNumber::PosInt(i64::MAX as u64)).as_i64(), Some(i64::MAX));
    assert_eq!(JsonValue::Number(JsonNumber::FloatBits(3.0f64.to_bits())).as_i64(), None);
    assert_eq!(JsonValue::Null.as_str(), None);
}

#[test]
fn string_elements_of_arrays() {
    let v = JsonValue::Array(vec![s("a"), JsonValue::Null, s("b"), JsonValue::Bool(false)]);
    let items = v.as_array().unwrap();
    assert_eq!(string_items(items), vec!["a".to_string(), "b".to_string()]);
    assert!(s("a").as_array().is_none());
}
