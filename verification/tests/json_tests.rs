use signage_core::json::{JsonNum, JsonValue};
use signage_core::strutil::{str_eq, str_leq, u64_to_string};

#[test]
fn decimal_rendering_is_exact() {
    assert_eq!(u64_to_string(0), "0");
    assert_eq!(u64_to_string(7), "7");
    assert_eq!(u64_to_string(12345), "12345");
    assert_eq!(u64_to_string(u64::MAX), "18446744073709551615");
}

#[test]
fn string_order_is_lexicographic() {
    assert!(str_leq("a", "b"));
    assert!(!str_leq("b", "a"));
    assert!(str_leq("abc", "abc"));
    assert!(str_leq("ab", "abc"));
    assert!(!str_leq("abc", "ab"));
    assert!(str_leq("", "a"));
    assert!(str_eq("abc", "abc"));
    assert!(!str_eq("abc", "abd"));
}

#[test]
fn index_returns_the_first_binding_and_none_when_absent() {
    let v = JsonValue::Obj(vec![
        ("a".to_string(), JsonValue::Bool(true)),
        ("a".to_string(), JsonValue::Bool(false)),
        ("b".to_string(), JsonValue::Null),
    ]);
    assert_eq!(v.index("a"), Some(&JsonValue::Bool(true)));
    assert_eq!(v.index("b"), Some(&JsonValue::Null));
    assert_eq!(v.index("c"), None);
    assert_eq!(JsonValue::Null.index("a"), None);
}

#[test]
fn pretty_printing_of_scalars_and_empties() {
    assert_eq!(JsonValue::Null.to_pretty_string(), "null");
    assert_eq!(JsonValue::Bool(true).to_pretty_string(), "true");
    assert_eq!(JsonValue::Bool(false).to_pretty_string(), "false");
    assert_eq!(JsonValue::Arr(vec![]).to_pretty_string(), "[]");
    assert_eq!(JsonValue::Obj(vec![]).to_pretty_string(), "{}");
    let n = JsonValue::Num(JsonNum { text: "12.9".to_string(), int_val: None, trunc: 12 });
    assert_eq!(n.to_pretty_string(), "12.9");
}

#[test]
fn pretty_printing_escapes_control_characters() {
    let s = JsonValue::Str("a\u{1}b".to_string());
    assert_eq!(s.to_pretty_string(), "\"a\\u0001b\"");
    let t = JsonValue::Str("tab\there".to_string());
    assert_eq!(t.to_pretty_string(), "\"tab\\there\"");
}

#[test]
fn pretty_printing_indents_nested_values() {
    let v = JsonValue::Obj(vec![(
        "a".to_string(),
        JsonValue::Arr(vec![
            JsonValue::Num(JsonNum { text: "1".to_string(), int_val: Some(1), trunc: 1 }),
            JsonValue::Num(JsonNum { text: "2".to_string(), int_val: Some(2), trunc: 2 }),
        ]),
    )]);
    assert_eq!(v.to_pretty_string(), "{\n  \"a\": [\n    1,\n    2\n  ]\n}");
}
