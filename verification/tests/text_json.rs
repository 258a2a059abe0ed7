use zeroclaw::channels::json::{i64_text, json_int, json_uint, u64_text, Json};
use zeroclaw::channels::text::{chars_of, parse_u64, same_text, string_of};

#[test]
fn parse_u64_accepts_what_std_accepts() {
    for s in ["0", "7", "+42", "0001", "18446744073709551615", "1234567890"] {
        assert_eq!(parse_u64(s), s.parse::<u64>().ok(), "input {:?}", s);
    }
}

#[test]
fn parse_u64_rejects_what_std_rejects() {
    for s in ["", "+", "-1", " 1", "1 ", "12a", "18446744073709551616", "99999999999999999999", "1.5"] {
        assert_eq!(parse_u64(s), None, "input {:?}", s);
        assert!(s.parse::<u64>().is_err());
    }
}

#[test]
fn decimal_texts() {
    assert_eq!(u64_text(0), "0");
    assert_eq!(u64_text(18446744073709551615), "18446744073709551615");
    assert_eq!(i64_text(-3), "-3");
    assert_eq!(i64_text(i64::MIN), "-9223372036854775808");
    assert_eq!(i64_text(i64::MAX), "9223372036854775807");
    assert!(matches!(json_int(5), Json::Number(ref n) if n == "5"));
    assert!(matches!(json_uint(60000), Json::Number(ref n) if n == "60000"));
}

#[test]
fn text_helpers() {
    let cs = chars_of("héllo");
    assert_eq!(cs, vec!['h', 'é', 'l', 'l', 'o']);
    assert_eq!(string_of(&cs, 1, 4), "éll");
    assert!(same_text("abc", "abc"));
    assert!(!same_text("abc", "abd"));
    assert!(!same_text("ab", "abc"));
}

#[test]
fn json_get_takes_first_match_and_as_str() {
    let obj = Json::Object(vec![
        ("k".to_string(), Json::Str("first".to_string())),
        ("k".to_string(), Json::Str("second".to_string())),
        ("n".to_string(), Json::Null),
    ]);
    assert_eq!(obj.get("k").and_then(|v| v.as_str()), Some("first"));
    assert!(matches!(obj.get("n"), Some(Json::Null)));
    assert!(obj.get("missing").is_none());
    assert!(Json::Bool(true).get("k").is_none());
    assert_eq!(Json::Bool(true).as_str(), None);
}

#[test]
fn json_clone_is_equal_copy() {
    let obj = Json::Object(vec![
        ("a".to_string(), Json::Array(vec![Json::Number("1".to_string()), Json::Null])),
        ("b".to_string(), Json::Bool(false)),
    ]);
    let copy = obj.clone();
    assert_eq!(format!("{:?}", copy), format!("{:?}", obj));
}
