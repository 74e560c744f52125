use ambry::cells::{text, text_opt, truthy};
use ambry::json::{Json, JsonNumber, Row};
use ambry::numeric::numeric_text;
use ambry::postgres::{
    columns_from_rows, ddl_from_rows, foreign_keys_from_rows, indexes_from_rows, is_read,
    simple_result, version_from_rows, SimpleMessage,
};

fn numeric_bytes(ndigits: u16, weight: i16, sign: u16, dscale: u16, digits: &[u16]) -> Vec<u8> {
    let mut out = Vec::new();
    for part in [ndigits, weight as u16, sign, dscale] {
        out.extend_from_slice(&part.to_be_bytes());
    }
    for d in digits {
        out.extend_from_slice(&d.to_be_bytes());
    }
    out
}

fn s(v: &str) -> Json {
    Json::Str(v.to_string())
}

fn row(members: Vec<(&str, Json)>) -> Row {
    members.into_iter().map(|(k, v)| (k.to_string(), v)).collect()
}

#[test]
fn postgres_classifies_reads_and_writes() {
    assert!(is_read("  select 1"));
    assert!(is_read("WITH x AS (SELECT 1) SELECT * FROM x"));
    assert!(is_read("SHOW server_version"));
    assert!(is_read("EXPLAIN SELECT 1"));
    assert!(is_read("VALUES (1)"));
    assert!(is_read("TABLE users"));
    assert!(!is_read("INSERT INTO t VALUES (1)"));
    assert!(!is_read("UPDATE t SET a = 1"));
    assert!(!is_read("SET search_path TO app"));
}

#[test]
fn numeric_decodes() {
    let b = numeric_bytes(3, 1, 0, 3, &[1, 2345, 6780]);
    assert_eq!(numeric_text(&b).as_deref(), Some("12345.678"));
    let b = numeric_bytes(1, -1, 0, 4, &[1]);
    assert_eq!(numeric_text(&b).as_deref(), Some("0.0001"));
    let b = numeric_bytes(1, 0, 0x4000, 0, &[42]);
    assert_eq!(numeric_text(&b).as_deref(), Some("-42"));
    let b = numeric_bytes(0, 0, 0, 0, &[]);
    assert_eq!(numeric_text(&b).as_deref(), Some("0"));
    let b = numeric_bytes(0, 0, 0xC000, 0, &[]);
    assert_eq!(numeric_text(&b).as_deref(), Some("NaN"));
}

#[test]
fn numeric_special_and_short_inputs() {
    assert_eq!(numeric_text(&numeric_bytes(0, 0, 0xD000, 0, &[])).as_deref(), Some("Infinity"));
    assert_eq!(numeric_text(&numeric_bytes(0, 0, 0xF000, 0, &[])).as_deref(), Some("-Infinity"));
    assert_eq!(numeric_text(&[0, 1, 0]), None);
    // two digit groups announced, one present
    let mut b = numeric_bytes(2, 0, 0, 0, &[7]);
    assert_eq!(numeric_text(&b), None);
    b.extend_from_slice(&8u16.to_be_bytes());
    assert_eq!(numeric_text(&b).as_deref(), Some("7"));
}

#[test]
fn numeric_pads_groups_and_fraction() {
    // 10000.05: groups [1, 0] weight 1, fraction group 500 at scale 2
    let b = numeric_bytes(3, 1, 0, 2, &[1, 0, 500]);
    assert_eq!(numeric_text(&b).as_deref(), Some("10000.05"));
    // weight below the first group: 0.00001234, scale 8
    let b = numeric_bytes(1, -2, 0, 8, &[1234]);
    assert_eq!(numeric_text(&b).as_deref(), Some("0.00001234"));
}

#[test]
fn simple_protocol_keeps_last_result_set() {
    let msgs = vec![
        SimpleMessage::Row(row(vec![("a", s("1"))])),
        SimpleMessage::CommandComplete(1),
        SimpleMessage::Other,
        SimpleMessage::Row(row(vec![("b", s("x")), ("c", Json::Null)])),
        SimpleMessage::Row(row(vec![("b", s("y")), ("c", s("z"))])),
        SimpleMessage::CommandComplete(2),
    ];
    let r = simple_result(msgs);
    assert_eq!(r.columns, vec!["b", "c"]);
    assert_eq!(r.rows.len(), 2);
    assert_eq!(r.rows_affected, 2);

    let writes = vec![SimpleMessage::CommandComplete(3), SimpleMessage::CommandComplete(5)];
    let r = simple_result(writes);
    assert!(r.columns.is_empty());
    assert!(r.rows.is_empty());
    assert_eq!(r.rows_affected, 5);

    let unfinished = vec![SimpleMessage::Row(row(vec![("a", s("1"))]))];
    let r = simple_result(unfinished);
    assert!(r.rows.is_empty());
    assert_eq!(r.rows_affected, 0);
}

#[test]
fn builds_schema_records_from_rows() {
    let cols = vec![row(vec![
        ("name", s("id")),
        ("data_type", s("integer")),
        ("nullable", Json::Bool(false)),
        ("default_value", Json::Null),
        ("is_primary_key", Json::Bool(true)),
        ("comment", s("key")),
    ])];
    let c = &columns_from_rows(&cols)[0];
    assert_eq!(c.name, "id");
    assert_eq!(c.data_type, "integer");
    assert!(!c.nullable);
    assert_eq!(c.default_value, None);
    assert!(c.is_primary_key);
    assert_eq!(c.comment.as_deref(), Some("key"));

    let idx = vec![row(vec![
        ("name", s("users_pkey")),
        ("columns", Json::Array(vec![s("id"), Json::Number(JsonNumber::PosInt(2))])),
        ("type", s("btree")),
        ("is_unique", Json::Bool(true)),
    ])];
    let i = &indexes_from_rows(&idx)[0];
    assert_eq!(i.columns, vec!["id", "2"]);
    assert!(i.unique);

    let fks = vec![row(vec![
        ("name", s("fk")),
        ("columns", s("not an array")),
        ("referenced_table", s("users")),
        ("referenced_columns", Json::Array(vec![s("id")])),
        ("on_delete", s("CASCADE")),
        ("on_update", s("NO ACTION")),
    ])];
    let f = &foreign_keys_from_rows(&fks)[0];
    assert!(f.columns.is_empty());
    assert_eq!(f.referenced_columns, vec!["id"]);
    assert_eq!(f.on_delete, "CASCADE");
}

#[test]
fn rebuilds_ddl_and_version() {
    let rows = vec![
        row(vec![
            ("column_name", s("id")),
            ("data_type", s("integer")),
            ("is_nullable", s("NO")),
            ("column_default", s("nextval('s')")),
        ]),
        row(vec![
            ("column_name", s("name")),
            ("data_type", s("text")),
            ("is_nullable", s("YES")),
            ("column_default", Json::Null),
        ]),
    ];
    assert_eq!(
        ddl_from_rows("users", &rows),
        "CREATE TABLE \"users\" (\n  \"id\" integer NOT NULL DEFAULT nextval('s'),\n  \"name\" text\n);"
    );
    assert_eq!(ddl_from_rows("t", &vec![]), "CREATE TABLE \"t\" (\n\n);");
    assert_eq!(version_from_rows(&vec![row(vec![("version", s("PostgreSQL 16"))])]), "PostgreSQL 16");
    assert_eq!(version_from_rows(&vec![]), "unknown");
}


/// A cell's integer reading, with the decimal reading of a string cell
/// worked out as the drivers' callers do.
fn int_of(v: &Json) -> Option<i64> {
    let decimal = match v {
        Json::Str(s) => s.trim().parse::<f64>().ok().map(|f| f as i64),
        _ => None,
    };
    ambry::cells::int_cell(Some(v), decimal)
}

#[test]
fn value_helpers() {
    assert_eq!(text(Some(&Json::Str("x".into()))), "x");
    assert_eq!(text(Some(&Json::Null)), "");
    assert_eq!(text_opt(Some(&Json::Null)), None);
    assert!(truthy(Some(&Json::Bool(true))));
    assert!(!truthy(Some(&Json::Null)));
    assert_eq!(int_of(&Json::Number(JsonNumber::PosInt(7))), Some(7));
    assert_eq!(int_of(&Json::Str("42".into())), Some(42));
    assert_eq!(int_of(&Json::Null), None);
}
