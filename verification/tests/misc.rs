use ambry::cells::{cell_text, parse_i64, stringify_cell, text, text_opt, truthy};
use ambry::grid::{can_go_back, can_go_forward, last_page, shown_name};
use ambry::ids::{iso_now, new_uuid};
use ambry::json::{FloatRepr, Json, JsonNumber};
use ambry::results::{QueryResult, RawResult};
use ambry::theme::{type_color, type_label, Accent};

fn float(x: f64) -> Json {
    let number = serde_json::Number::from_f64(x).expect("finite");
    Json::Number(JsonNumber::Float(FloatRepr {
        json_text: number.to_string(),
        display_text: format!("{}", x),
        is_zero: x == 0.0,
        truncated: x as i64,
    }))
}

#[test]
fn engine_labels_and_colours() {
    assert_eq!(type_label("postgres"), "PostgreSQL");
    assert_eq!(type_label("sqlite"), "SQLite");
    assert_eq!(type_label("mysql"), "MySQL");
    assert_eq!(type_label("oracle"), "unknown");
    assert_eq!(type_color("postgres"), Accent::Blue);
    assert_eq!(type_color("sqlite"), Accent::Teal);
    assert_eq!(type_color("mysql"), Accent::Orange);
    assert_eq!(type_color(""), Accent::Gray);
}

#[test]
fn uuids_and_timestamps() {
    let a = new_uuid();
    let b = new_uuid();
    assert_ne!(a, b);
    assert_eq!(a.len(), 36);
    assert_eq!(a.as_bytes()[14], b'4');
    assert!(a.chars().enumerate().all(|(i, c)| if [8, 13, 18, 23].contains(&i) {
        c == '-'
    } else {
        c.is_ascii_hexdigit() && !c.is_ascii_uppercase()
    }));
    let now = iso_now();
    assert!(now.ends_with('Z'));
    assert_eq!(now.len(), 24);
    assert_eq!(&now[10..11], "T");
}

#[test]
fn integers_parse_like_rust() {
    assert_eq!(parse_i64("42"), Some(42));
    assert_eq!(parse_i64("-42"), Some(-42));
    assert_eq!(parse_i64("+7"), Some(7));
    assert_eq!(parse_i64("9223372036854775807"), Some(i64::MAX));
    assert_eq!(parse_i64("-9223372036854775808"), Some(i64::MIN));
    assert_eq!(parse_i64("9223372036854775808"), None);
    assert_eq!(parse_i64(""), None);
    assert_eq!(parse_i64("-"), None);
    assert_eq!(parse_i64("1.5"), None);
    assert_eq!(parse_i64(" 1"), None);
    for s in ["0", "-0", "+0", "00012", "-00012", "123456789012"] {
        assert_eq!(parse_i64(s), s.parse::<i64>().ok(), "{s}");
    }
}

#[test]
fn cell_helpers() {
    assert_eq!(text(Some(&Json::Str("x".into()))), "x");
    assert_eq!(text(Some(&Json::Null)), "");
    assert_eq!(text(None), "");
    assert_eq!(text_opt(Some(&Json::Null)), None);
    assert_eq!(text_opt(None), None);
    assert!(truthy(Some(&Json::Bool(true))));
    assert!(!truthy(Some(&Json::Null)));
    assert!(!truthy(None));
    assert_eq!(stringify_cell(&Json::Null), "");
    assert_eq!(stringify_cell(&Json::Bool(false)), "false");
    assert_eq!(stringify_cell(&float(1.5)), "1.5");
    assert_eq!(stringify_cell(&Json::Array(vec![Json::Null])), "[null]");
    assert_eq!(cell_text(None, "NULL"), "NULL");
    assert_eq!(cell_text(Some(&Json::Null), "∅"), "∅");
    assert_eq!(cell_text(Some(&Json::Str("v".into())), "NULL"), "v");
}

#[test]
fn query_results() {
    let raw = RawResult::affected(3);
    assert!(raw.rows.is_empty());
    assert_eq!(raw.rows_affected, 3);
    let ok = QueryResult::from_raw(raw, 12);
    assert_eq!(ok.rows_affected, 3);
    assert_eq!(ok.execution_time, 12);
    assert_eq!(ok.error, None);
    let bad = QueryResult::failure("boom".into(), 5);
    assert_eq!(bad.error, Some("boom".to_string()));
    assert_eq!(bad.rows_affected, 0);
}

#[test]
fn paging_and_shown_names() {
    assert_eq!(last_page(0, 100), 1);
    assert_eq!(last_page(-5, 100), 1);
    assert_eq!(last_page(100, 100), 1);
    assert_eq!(last_page(101, 100), 2);
    assert_eq!(last_page(250, 25), 10);
    assert!(!can_go_back(1));
    assert!(can_go_back(2));
    assert!(can_go_forward(1, 2));
    assert!(!can_go_forward(2, 2));
    assert_eq!(shown_name(Some("Prod")), "Prod");
    assert_eq!(shown_name(Some("")), "Connection");
    assert_eq!(shown_name(None), "Connection");
}

#[test]
fn case_mapping_of_classifiers() {
    assert_eq!(ambry::postgres::is_read("select 1"), ambry::postgres::is_read("SELECT 1"));
    assert!(ambry::queries::is_numeric_type("BIGINT"));
}
