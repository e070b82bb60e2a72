use codex_automation::json::Json;
use codex_automation::lines::join;
use codex_automation::text::{i64_text, parse_i64, text_less, trim_str, u64_text};

#[test]
fn trim_matches_std() {
    for s in ["  a b  ", "\t\n x\u{3000}", "", "   ", "\u{85}y\u{a0}", "no-space"] {
        assert_eq!(trim_str(s), s.trim());
    }
}

#[test]
fn decimal_text() {
    assert_eq!(u64_text(0), "0");
    assert_eq!(u64_text(18446744073709551615), "18446744073709551615");
    assert_eq!(i64_text(i64::MIN), i64::MIN.to_string());
    assert_eq!(i64_text(-7), "-7");
    assert_eq!(i64_text(1234), "1234");
}

#[test]
fn text_order_is_byte_order() {
    let pairs = [("a", "b"), ("a", "ab"), ("", "a"), ("B", "a"), ("é", "z"), ("2024-01-02", "2024-01-10")];
    for (a, b) in pairs {
        assert_eq!(text_less(a, b), a < b);
        assert_eq!(text_less(b, a), b < a);
    }
    assert!(!text_less("same", "same"));
}

#[test]
fn joined_lines() {
    let v = vec!["a".to_string(), String::new(), "c".to_string()];
    assert_eq!(join(&v), "a\n\nc");
    assert_eq!(join(&Vec::new()), "");
}

#[test]
fn json_lookups() {
    let j = Json::Object(vec![
        ("a".to_string(), Json::Str(" x ".to_string())),
        ("b".to_string(), Json::Int(3)),
    ]);
    assert_eq!(j.str_field("a"), Some(" x "));
    assert_eq!(j.nonblank_field("a"), Some("x".to_string()));
    assert!(j.str_field("b").is_none());
    assert!(j.get("c").is_none());
    assert!(j.is_object());
    assert!(!Json::Null.is_object());
}

#[test]
fn parse_i64_matches_std() {
    for t in ["3", "+3", "-3", "", "-", "+", "007", "12a", " 1", "9223372036854775807",
        "9223372036854775808", "-9223372036854775808", "-9223372036854775809",
        "99999999999999999999999", "1.5"] {
        assert_eq!(parse_i64(t), t.parse::<i64>().ok(), "{t}");
    }
}
