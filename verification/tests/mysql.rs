use ambry::json::{Json, JsonNumber, Row};
use ambry::mysql::{
    columns_from_rows, ddl_from_rows, foreign_keys_from_rows, format_date, format_time,
    indexes_from_rows, split_list, version_from_rows,
};

fn s(v: &str) -> Json {
    Json::Str(v.to_string())
}

fn row(members: Vec<(&str, Json)>) -> Row {
    members.into_iter().map(|(k, v)| (k.to_string(), v)).collect()
}

#[test]
fn splits_group_concat() {
    assert_eq!(split_list("a,b"), vec!["a", "b"]);
    assert_eq!(split_list(""), vec![""]);
}

#[test]
fn formats_dates_and_times() {
    assert_eq!(format_date(2024, 1, 5, 9, 30, 7, 0), "2024-01-05 09:30:07");
    assert_eq!(format_date(2024, 1, 5, 0, 0, 0, 120000), "2024-01-05 00:00:00.120000");
    assert_eq!(format_time(false, 1, 2, 3, 4, 0), "26:03:04");
    assert_eq!(format_time(true, 0, 5, 0, 0, 0), "-05:00:00");
}

#[test]
fn pads_small_fields_and_microseconds() {
    assert_eq!(format_date(7, 12, 31, 23, 59, 58, 5), "0007-12-31 23:59:58.000005");
    assert_eq!(format_time(false, 4, 3, 2, 1, 999999), "99:02:01.999999");
    assert_eq!(format_time(false, 5, 0, 0, 0, 0), "120:00:00");
}

#[test]
fn reads_columns_indexes_and_keys() {
    let cols = vec![row(vec![
        ("name", s("email")),
        ("data_type", s("varchar(255)")),
        ("nullable", Json::Number(JsonNumber::PosInt(1))),
        ("default_value", Json::Null),
        ("is_primary_key", Json::Number(JsonNumber::PosInt(0))),
        ("comment", s("")),
    ])];
    let c = &columns_from_rows(&cols)[0];
    assert!(c.nullable);
    assert!(!c.is_primary_key);
    assert_eq!(c.comment, None);

    let idx = vec![row(vec![
        ("name", s("PRIMARY")),
        ("columns_str", s("a,b")),
        ("type", s("BTREE")),
        ("is_unique", Json::Number(JsonNumber::PosInt(1))),
    ])];
    let i = &indexes_from_rows(&idx)[0];
    assert_eq!(i.columns, vec!["a", "b"]);
    assert!(i.unique);

    let fks = vec![
        row(vec![
            ("name", s("fk_a")),
            ("columns_str", s("x")),
            ("referenced_table", s("t")),
            ("ref_columns_str", s("id")),
        ]),
        row(vec![
            ("name", s("fk_b")),
            ("columns_str", s("y")),
            ("referenced_table", s("u")),
            ("ref_columns_str", s("id")),
        ]),
    ];
    let actions = vec![row(vec![
        ("name", s("fk_a")),
        ("on_delete", s("CASCADE")),
        ("on_update", s("RESTRICT")),
    ])];
    let keys = foreign_keys_from_rows(&fks, &actions);
    assert_eq!(keys[0].on_delete, "CASCADE");
    assert_eq!(keys[0].on_update, "RESTRICT");
    assert_eq!(keys[1].on_delete, "NO ACTION");
    assert_eq!(keys[1].on_update, "NO ACTION");
}

#[test]
fn picks_ddl_and_version() {
    assert_eq!(
        ddl_from_rows(&vec![row(vec![("Create Table", s("")), ("Create View", s("CREATE VIEW v"))])]),
        "CREATE VIEW v"
    );
    assert_eq!(ddl_from_rows(&vec![]), "");
    assert_eq!(version_from_rows(&vec![row(vec![("v", s("8.0.36"))])]), "MySQL 8.0.36");
    assert_eq!(version_from_rows(&vec![row(vec![("v", Json::Null)])]), "MySQL unknown");
}
