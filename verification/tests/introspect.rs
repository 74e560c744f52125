use ambry::cells::{count_cell, int_cell, set_member};
use ambry::engine::{tls_settings, TlsSettings};
use ambry::introspect::{mysql_count_sql, needs_row_count, postgres_count_sql, table_from_row};
use ambry::json::{Json, JsonNumber, Row};
use ambry::mysql::show_create_sql;
use ambry::postgres::is_multi_statement_error;
use ambry::results::{RawResult, RowsResponse};
use ambry::sqlite::pragma_sql;
use ambry::types::{SslConfig, TableInfo};

fn s(v: &str) -> Json {
    Json::Str(v.to_string())
}

fn num(u: u64) -> Json {
    Json::Number(JsonNumber::PosInt(u))
}

#[test]
fn integer_readings() {
    assert_eq!(int_cell(Some(&num(7)), None), Some(7));
    assert_eq!(int_cell(Some(&Json::Number(JsonNumber::PosInt(u64::MAX))), None), Some(i64::MAX));
    assert_eq!(int_cell(Some(&Json::Number(JsonNumber::NegInt(-3))), None), Some(-3));
    assert_eq!(int_cell(Some(&s(" 42 ")), Some(99)), Some(42));
    assert_eq!(int_cell(Some(&s("4.9")), Some(4)), Some(4));
    assert_eq!(int_cell(Some(&s("x")), None), None);
    assert_eq!(int_cell(Some(&Json::Null), Some(1)), None);
    assert_eq!(int_cell(None, None), None);
    assert_eq!(count_cell(Some(&num(12)), None), 12);
    assert_eq!(count_cell(Some(&s("12")), Some(12)), 12);
    assert_eq!(count_cell(Some(&s("many")), None), 0);
    assert_eq!(count_cell(Some(&Json::Bool(true)), None), 0);
    assert_eq!(count_cell(None, None), 0);
}

#[test]
fn members_are_set_like_object_keys() {
    let mut row: Row = Vec::new();
    set_member(&mut row, "a".into(), num(1));
    set_member(&mut row, "b".into(), num(2));
    set_member(&mut row, "a".into(), num(3));
    assert_eq!(row.len(), 2);
    assert_eq!(row[0].0, "a");
    assert!(matches!(row[0].1, Json::Number(JsonNumber::PosInt(3))));
    assert_eq!(row[1].0, "b");
}

#[test]
fn table_records_and_exact_counts() {
    let row: Row = vec![
        ("name".to_string(), s("orders")),
        ("type".to_string(), s("table")),
        ("row_count".to_string(), num(0)),
    ];
    let table = table_from_row(&row, None);
    assert_eq!(table, TableInfo { name: "orders".into(), kind: "table".into(), row_count: Some(0) });
    assert!(needs_row_count(&table));
    assert!(needs_row_count(&TableInfo { name: "t".into(), kind: "table".into(), row_count: None }));
    assert!(!needs_row_count(&TableInfo { name: "t".into(), kind: "table".into(), row_count: Some(5) }));
    assert!(!needs_row_count(&TableInfo { name: "v".into(), kind: "view".into(), row_count: None }));
    assert_eq!(
        postgres_count_sql("we\"ird"),
        "SELECT COUNT(*)::bigint AS c FROM public.\"we\"\"ird\""
    );
    assert_eq!(mysql_count_sql("a`b"), "SELECT COUNT(*) AS c FROM `a``b`");
}

#[test]
fn statement_builders() {
    assert_eq!(pragma_sql("table_info", "users"), "PRAGMA table_info(\"users\")");
    assert_eq!(show_create_sql("users"), "SHOW CREATE TABLE `users`");
    assert!(is_multi_statement_error("cannot insert multiple commands into a prepared statement"));
    assert!(!is_multi_statement_error("syntax error at or near \"x\""));
}

#[test]
fn transport_security() {
    let ssl = |mode: &str, ca: Option<&str>, cert: Option<&str>, key: Option<&str>| {
        Some(SslConfig {
            mode: mode.into(),
            ca: ca.map(|c| c.to_string()),
            cert: cert.map(|c| c.to_string()),
            key: key.map(|c| c.to_string()),
        })
    };
    assert_eq!(tls_settings(&None), None);
    assert_eq!(tls_settings(&ssl("disabled", Some("/ca"), None, None)), None);
    assert_eq!(
        tls_settings(&ssl("required", Some(""), Some("/c"), None)),
        Some(TlsSettings { verify: false, ca: None, identity: None })
    );
    assert_eq!(
        tls_settings(&ssl("verify-ca", Some("/ca"), Some("/c"), Some("/k"))),
        Some(TlsSettings {
            verify: true,
            ca: Some("/ca".into()),
            identity: Some(("/c".into(), "/k".into())),
        })
    );
    assert_eq!(
        tls_settings(&ssl("verify-identity", None, Some(""), Some("/k"))),
        Some(TlsSettings { verify: true, ca: None, identity: None })
    );
}

#[test]
fn results_of_reads_and_pages() {
    let raw = RawResult::read(vec!["a".into()], vec![vec![("a".to_string(), num(1))], vec![]]);
    assert_eq!(raw.rows_affected, 2);
    assert_eq!(raw.columns, vec!["a"]);
    let page = RowsResponse::page(raw, 40, 2, 20);
    assert_eq!(page.total, 40);
    assert_eq!(page.page, 2);
    assert_eq!(page.page_size, 20);
    assert_eq!(page.rows.len(), 2);
}

#[test]
fn profile_counts() {
    let col = ambry::types::ColumnInfo {
        name: "age".into(),
        data_type: "integer".into(),
        nullable: true,
        default_value: None,
        is_primary_key: false,
        comment: None,
    };
    let zero = ambry::profiling::zero_counts(&col, 10);
    assert_eq!((zero.total_rows, zero.null_count, zero.distinct_count), (10, 0, 0));
    assert_eq!((&zero.min_value, &zero.max_value), (&None, &None));
    let stats: Row = vec![
        ("null_count".to_string(), s("3")),
        ("distinct_count".to_string(), num(5)),
        ("min_val".to_string(), s("18")),
        ("max_val".to_string(), Json::Null),
    ];
    let counts = ambry::profiling::counts_from_stats(&col, 10, Some(&stats), Some(3), None);
    assert_eq!(counts.column, "age");
    assert_eq!((counts.null_count, counts.distinct_count), (3, 5));
    assert_eq!(counts.min_value, Some("18".to_string()));
    assert_eq!(counts.max_value, None);
    assert_eq!(ambry::profiling::counts_from_stats(&col, 10, None, None, None), zero);
    let top = ambry::profiling::top_value(
        &vec![("val".to_string(), Json::Null), ("cnt".to_string(), num(4))],
        None,
    );
    assert_eq!((top.value.as_str(), top.count), ("", 4));
}
