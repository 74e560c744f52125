use ambry::engine::SqliteAdapter;
use ambry::json::{Json, JsonNumber, Row};
use ambry::sqlite::{
    columns_from_rows, databases_of, ddl_from_rows, foreign_keys_from_rows, index_from_rows,
    is_read, tables_from_rows, version_from_rows,
};
use ambry::types::ConnectionConfig;

fn s(v: &str) -> Json {
    Json::Str(v.to_string())
}

fn n(i: u64) -> Json {
    Json::Number(JsonNumber::PosInt(i))
}

fn row(members: Vec<(&str, Json)>) -> Row {
    members.into_iter().map(|(k, v)| (k.to_string(), v)).collect()
}

fn sqlite_config(filepath: Option<&str>) -> ConnectionConfig {
    ConnectionConfig {
        id: "test".into(),
        kind: "sqlite".into(),
        host: String::new(),
        port: 0,
        database: "app".into(),
        username: String::new(),
        password: String::new(),
        filepath: filepath.map(|p| p.to_string()),
        ssl: None,
        ssh: None,
        startup_commands: None,
    }
}

#[test]
fn databases_uses_basename() {
    let adapter = SqliteAdapter::new(&sqlite_config(Some("/tmp/dir/app.sqlite")));
    assert_eq!(adapter.path, "/tmp/dir/app.sqlite");
    assert_eq!(databases_of(&adapter.path), vec!["app.sqlite"]);
}

#[test]
fn path_falls_back_to_database_name() {
    assert_eq!(SqliteAdapter::new(&sqlite_config(None)).path, "app");
    assert_eq!(SqliteAdapter::new(&sqlite_config(Some(""))).path, "app");
    assert_eq!(databases_of(":memory:"), vec![":memory:"]);
    assert_eq!(databases_of("/"), vec!["main"]);
    assert_eq!(databases_of(""), vec!["main"]);
}

#[test]
fn sqlite_classifies_reads() {
    assert!(is_read("select name from t order by name"));
    assert!(is_read("  PRAGMA table_info(t)"));
    assert!(is_read("with x as (select 1) select * from x"));
    assert!(!is_read("CREATE TABLE t (id INTEGER PRIMARY KEY, name TEXT)"));
    assert!(!is_read("INSERT INTO t (name) VALUES ('a'), ('b')"));
    assert!(!is_read("EXPLAIN SELECT 1"));
}

#[test]
fn tables_and_columns_from_rows() {
    let tables = tables_from_rows(&vec![
        row(vec![("name", s("posts")), ("type", s("table"))]),
        row(vec![("name", s("v_users")), ("type", s("view"))]),
    ]);
    assert_eq!(tables.len(), 2);
    assert_eq!(tables[0].name, "posts");
    assert_eq!(tables[1].kind, "view");
    assert_eq!(tables[1].row_count, None);

    let columns = columns_from_rows(&vec![
        row(vec![
            ("name", s("id")),
            ("type", s("INTEGER")),
            ("notnull", n(0)),
            ("dflt_value", Json::Null),
            ("pk", n(1)),
        ]),
        row(vec![
            ("name", s("email")),
            ("type", s("")),
            ("notnull", n(1)),
            ("dflt_value", s("'x'")),
            ("pk", n(0)),
        ]),
    ]);
    assert_eq!(columns[0].name, "id");
    assert_eq!(columns[0].data_type, "INTEGER");
    assert!(columns[0].nullable);
    assert!(columns[0].is_primary_key);
    assert_eq!(columns[0].default_value, None);
    assert_eq!(columns[1].data_type, "TEXT");
    assert!(!columns[1].nullable);
    assert!(!columns[1].is_primary_key);
    assert_eq!(columns[1].default_value, Some("'x'".to_string()));
}

#[test]
fn indexes_from_rows() {
    let index = index_from_rows(
        &row(vec![("name", s("idx_users_email")), ("origin", s("c")), ("unique", n(1))]),
        &vec![row(vec![("name", s("email"))])],
    );
    assert_eq!(index.name, "idx_users_email");
    assert_eq!(index.columns, vec!["email"]);
    assert_eq!(index.kind, "BTREE");
    assert!(index.unique);
    let pk = index_from_rows(
        &row(vec![("name", s("pk")), ("origin", s("pk")), ("unique", n(0))]),
        &vec![],
    );
    assert_eq!(pk.kind, "PRIMARY");
    assert!(!pk.unique);
}

#[test]
fn foreign_keys_group_by_id() {
    let fk = |id: u64, from: &str, to: &str, table: &str| {
        row(vec![
            ("id", n(id)),
            ("table", s(table)),
            ("from", s(from)),
            ("to", s(to)),
            ("on_update", s("NO ACTION")),
            ("on_delete", s("CASCADE")),
        ])
    };
    let keys = foreign_keys_from_rows(&vec![
        fk(1, "a", "x", "t1"),
        fk(0, "user_id", "id", "users"),
        fk(1, "b", "y", "ignored"),
    ]);
    assert_eq!(keys.len(), 2);
    assert_eq!(keys[0].name, "fk_1");
    assert_eq!(keys[0].columns, vec!["a", "b"]);
    assert_eq!(keys[0].referenced_columns, vec!["x", "y"]);
    assert_eq!(keys[0].referenced_table, "t1");
    assert_eq!(keys[1].name, "fk_0");
    assert_eq!(keys[1].columns, vec!["user_id"]);
    assert_eq!(keys[1].on_delete, "CASCADE");
    assert_eq!(keys[1].on_update, "NO ACTION");
}

#[test]
fn ddl_and_version_from_rows() {
    assert_eq!(ddl_from_rows(&vec![]), "");
    assert_eq!(
        ddl_from_rows(&vec![row(vec![("sql", s("CREATE TABLE users (id INTEGER)"))])]),
        "CREATE TABLE users (id INTEGER)"
    );
    assert_eq!(ddl_from_rows(&vec![row(vec![("sql", Json::Null)])]), "");
    assert_eq!(version_from_rows(&vec![row(vec![("v", s("3.45.0"))])]), "SQLite 3.45.0");
    assert_eq!(version_from_rows(&vec![]), "SQLite unknown");
}
