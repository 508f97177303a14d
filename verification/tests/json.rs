use bilirust::json::{find_entry, JsonNumber, JsonValue};
use bilirust::lenient::{fuzzy_bool, null_vec, ShapeError};
use bilirust::parse::{from_str, is_json};

fn text(s: &str) -> JsonValue {
    JsonValue::String(s.to_string())
}

fn uint(n: u64) -> JsonValue {
    JsonValue::Number(JsonNumber::PosInt(n))
}

fn object(entries: Vec<(&str, JsonValue)>) -> JsonValue {
    JsonValue::Object(entries.into_iter().map(|(k, v)| (k.to_string(), v)).collect())
}

#[test]
fn from_str_reads_scalars() {
    assert_eq!(from_str("null"), Ok(JsonValue::Null));
    assert_eq!(from_str("true"), Ok(JsonValue::Bool(true)));
    assert_eq!(from_str(" false "), Ok(JsonValue::Bool(false)));
    assert_eq!(from_str("\"a\\nb\\u00e9\""), Ok(text("a\nb\u{e9}")));
}

#[test]
fn from_str_reads_numbers() {
    assert_eq!(from_str("0"), Ok(uint(0)));
    assert_eq!(from_str("18446744073709551615"), Ok(uint(u64::MAX)));
    assert_eq!(from_str("-1"), Ok(JsonValue::Number(JsonNumber::NegInt(-1))));
    assert_eq!(
        from_str("-9223372036854775808"),
        Ok(JsonValue::Number(JsonNumber::NegInt(i64::MIN)))
    );
    assert_eq!(from_str("1.5"), Ok(JsonValue::Number(JsonNumber::Float("1.5".to_string()))));
    assert_eq!(from_str("1e2"), Ok(JsonValue::Number(JsonNumber::Float("100.0".to_string()))));
    assert_eq!(from_str("-0"), Ok(JsonValue::Number(JsonNumber::Float("-0.0".to_string()))));
    assert_eq!(
        from_str("18446744073709551616"),
        Ok(JsonValue::Number(JsonNumber::Float("1.8446744073709552e+19".to_string())))
    );
}

#[test]
fn from_str_reads_containers() {
    assert_eq!(
        from_str("[1, [2, {\"a\": []}], \"x\"]"),
        Ok(JsonValue::Array(vec![
            uint(1),
            JsonValue::Array(vec![uint(2), object(vec![("a", JsonValue::Array(vec![]))])]),
            text("x"),
        ]))
    );
    assert_eq!(from_str("{}"), Ok(object(vec![])));
}

#[test]
fn from_str_lists_entries_by_key_and_keeps_the_last_of_equal_keys() {
    assert_eq!(
        from_str("{\"b\": 1, \"a\": 2, \"b\": 3}"),
        Ok(object(vec![("a", uint(2)), ("b", uint(3))]))
    );
}

#[test]
fn from_str_failures() {
    assert_eq!(from_str(""), Err("EOF while parsing a value at line 1 column 0".to_string()));
    assert_eq!(from_str("{\"a\":1,}"), Err("trailing comma at line 1 column 8".to_string()));
    assert_eq!(from_str("1 2"), Err("trailing characters at line 1 column 3".to_string()));
    assert_eq!(from_str("nul"), Err("EOF while parsing a value at line 1 column 3".to_string()));
    assert_eq!(from_str("nulx"), Err("expected ident at line 1 column 4".to_string()));
}

#[test]
fn is_json_agrees_with_from_str() {
    assert!(is_json("{\"a\":1}"));
    assert!(is_json(" [] "));
    assert!(!is_json("{\"a\":"));
    assert!(!is_json(""));
    assert!(!is_json("{'a':1}"));
}

#[test]
fn get_takes_the_first_entry_with_the_key() {
    let o = object(vec![("a", uint(1)), ("b", uint(2)), ("a", uint(3))]);
    assert_eq!(o.get("a"), Some(&uint(1)));
    assert_eq!(o.get("b"), Some(&uint(2)));
    assert_eq!(o.get("c"), None);
    assert_eq!(o.get(""), None);
    assert_eq!(uint(1).get("a"), None);
    assert_eq!(JsonValue::Array(vec![o]).get("a"), None);
}

#[test]
fn find_entry_positions() {
    let entries = vec![("a".to_string(), uint(1)), ("b".to_string(), uint(2))];
    assert_eq!(find_entry(&entries, "a"), 0);
    assert_eq!(find_entry(&entries, "b"), 1);
    assert_eq!(find_entry(&entries, "ab"), 2);
    assert_eq!(find_entry(&vec![], "a"), 0);
}

#[test]
fn as_i64_of_numbers() {
    assert_eq!(uint(5).as_i64(), Some(5));
    assert_eq!(uint(9223372036854775807).as_i64(), Some(i64::MAX));
    assert_eq!(uint(9223372036854775808).as_i64(), None);
    assert_eq!(JsonValue::Number(JsonNumber::NegInt(-5)).as_i64(), Some(-5));
    assert_eq!(JsonValue::Number(JsonNumber::Float("1.0".to_string())).as_i64(), None);
    assert_eq!(text("5").as_i64(), None);
    assert_eq!(JsonValue::Null.as_i64(), None);
}

#[test]
fn accessors_by_kind() {
    assert_eq!(text("s").as_str(), Some("s"));
    assert_eq!(uint(1).as_str(), None);
    assert_eq!(JsonValue::Bool(true).as_bool(), Some(true));
    assert_eq!(JsonValue::Null.as_bool(), None);
    assert_eq!(JsonValue::Array(vec![uint(1)]).as_array(), Some(&vec![uint(1)]));
    assert_eq!(object(vec![]).as_array(), None);
    assert!(JsonValue::Null.is_null());
    assert!(!JsonValue::Bool(false).is_null());
}

#[test]
fn clone_copies_the_whole_value() {
    let v = object(vec![
        ("a", JsonValue::Array(vec![uint(1), JsonValue::Null, text("x")])),
        ("b", object(vec![("c", JsonValue::Number(JsonNumber::Float("2.5".to_string())))])),
        ("d", JsonValue::Number(JsonNumber::NegInt(-3))),
        ("e", JsonValue::Bool(true)),
    ]);
    assert_eq!(v.clone(), v);
}

#[test]
fn fuzzy_bool_accepts_booleans_and_integers() {
    assert_eq!(fuzzy_bool(&JsonValue::Bool(true)), Ok(true));
    assert_eq!(fuzzy_bool(&JsonValue::Bool(false)), Ok(false));
    assert_eq!(fuzzy_bool(&uint(1)), Ok(true));
    assert_eq!(fuzzy_bool(&uint(0)), Ok(false));
    assert_eq!(fuzzy_bool(&uint(2)), Ok(true));
    assert_eq!(fuzzy_bool(&JsonValue::Number(JsonNumber::NegInt(-1))), Ok(false));
}

#[test]
fn fuzzy_bool_refuses_other_values() {
    assert_eq!(fuzzy_bool(&JsonValue::Null), Err(ShapeError::TypeError));
    assert_eq!(fuzzy_bool(&text("true")), Err(ShapeError::TypeError));
    assert_eq!(fuzzy_bool(&uint(u64::MAX)), Err(ShapeError::TypeError));
    assert_eq!(
        fuzzy_bool(&JsonValue::Number(JsonNumber::Float("1.0".to_string()))),
        Err(ShapeError::TypeError)
    );
}

#[test]
fn null_vec_accepts_null_and_arrays() {
    assert_eq!(null_vec(&JsonValue::Null), Ok(vec![]));
    assert_eq!(null_vec(&JsonValue::Array(vec![])), Ok(vec![]));
    assert_eq!(
        null_vec(&JsonValue::Array(vec![uint(1), text("a")])),
        Ok(vec![uint(1), text("a")])
    );
}

#[test]
fn null_vec_refuses_other_values() {
    assert_eq!(null_vec(&object(vec![])), Err(ShapeError::TypeError));
    assert_eq!(null_vec(&uint(0)), Err(ShapeError::TypeError));
    assert_eq!(null_vec(&text("")), Err(ShapeError::TypeError));
}
