use ambry::json::{json_to_text, FloatRepr, Json, JsonNumber};
use ambry::values::{literal, literal_bool_kw, where_eq};

fn float(x: f64) -> Json {
    let number = serde_json::Number::from_f64(x).expect("finite");
    Json::Number(JsonNumber::Float(FloatRepr {
        json_text: number.to_string(),
        display_text: format!("{}", x),
        is_zero: x == 0.0,
        truncated: x as i64,
    }))
}

fn num(i: i64) -> Json {
    if i >= 0 {
        Json::Number(JsonNumber::PosInt(i as u64))
    } else {
        Json::Number(JsonNumber::NegInt(i))
    }
}

fn s(v: &str) -> Json {
    Json::Str(v.to_string())
}

#[test]
fn null_is_bare_keyword() {
    assert_eq!(literal(&Json::Null), "NULL");
    assert_eq!(literal_bool_kw(&Json::Null), "NULL");
}

#[test]
fn numbers_stay_bare() {
    assert_eq!(literal(&num(42)), "42");
    assert_eq!(literal(&num(-7)), "-7");
    assert_eq!(literal(&float(3.14)), "3.14");
    assert_eq!(literal(&float(3.0)), "3");
}

#[test]
fn booleans_fall_through_to_string_branch() {
    assert_eq!(literal(&Json::Bool(true)), "'true'");
    assert_eq!(literal(&Json::Bool(false)), "'false'");
}

#[test]
fn bool_kw_variant_uses_keywords() {
    assert_eq!(literal_bool_kw(&Json::Bool(true)), "TRUE");
    assert_eq!(literal_bool_kw(&Json::Bool(false)), "FALSE");
    assert_eq!(literal_bool_kw(&s("x")), "'x'");
    assert_eq!(literal_bool_kw(&num(2)), "2");
}

#[test]
fn strings_are_quoted_and_escaped() {
    assert_eq!(literal(&s("hello")), "'hello'");
    assert_eq!(literal(&s("O'Brien")), "'O''Brien'");
}

#[test]
fn objects_and_arrays_serialize_then_quote() {
    let object = Json::Object(vec![("a".to_string(), num(1))]);
    assert_eq!(literal(&object), "'{\"a\":1}'");
    let array = Json::Array(vec![num(1), num(2)]);
    assert_eq!(literal(&array), "'[1,2]'");
}

#[test]
fn where_eq_handles_null_and_values() {
    assert_eq!(where_eq("id", &Json::Null), "\"id\" IS NULL");
    assert_eq!(where_eq("id", &num(3)), "\"id\" = 3");
    assert_eq!(where_eq("name", &s("Bob")), "\"name\" = 'Bob'");
    assert_eq!(where_eq("ok", &Json::Bool(true)), "\"ok\" = 'true'");
}

#[test]
fn compact_json_escapes_strings_and_nests() {
    let v = Json::Object(vec![
        ("k".to_string(), s("a\"b\\c\nd\u{1}")),
        ("n".to_string(), Json::Null),
        ("f".to_string(), float(3.0)),
        ("xs".to_string(), Json::Array(vec![Json::Bool(false), num(-5)])),
    ]);
    assert_eq!(
        json_to_text(&v),
        "{\"k\":\"a\\\"b\\\\c\\nd\\u0001\",\"n\":null,\"f\":3.0,\"xs\":[false,-5]}"
    );
}

#[test]
fn compact_json_matches_serde_json() {
    let mut map = serde_json::Map::new();
    map.insert("name".to_string(), serde_json::Value::String("tab\there".to_string()));
    map.insert("big".to_string(), serde_json::Value::from(u64::MAX));
    map.insert("neg".to_string(), serde_json::Value::from(i64::MIN));
    let expected = serde_json::to_string(&serde_json::Value::Object(map)).unwrap();
    let v = Json::Object(vec![
        ("name".to_string(), s("tab\there")),
        ("big".to_string(), Json::Number(JsonNumber::PosInt(u64::MAX))),
        ("neg".to_string(), Json::Number(JsonNumber::NegInt(i64::MIN))),
    ]);
    assert_eq!(json_to_text(&v), expected);
}

#[test]
fn literal_of_nested_object_quotes_inner_quotes_untouched() {
    let v = Json::Object(vec![("q".to_string(), s("it's"))]);
    assert_eq!(literal(&v), "'{\"q\":\"it''s\"}'");
}
