use ambry::json::{Json, JsonNumber, Row};
use ambry::queries::{
    delete_sql, export_query, grid_request, insert_sql, is_numeric_type, mock_insert_sql,
    profile_queries, rows_queries, table_query, total_query, update_sql,
};
use ambry::types::{FilterCondition, RowsRequest, SortSpec};

fn s(v: &str) -> Json {
    Json::Str(v.to_string())
}

fn num(i: u64) -> Json {
    Json::Number(JsonNumber::PosInt(i))
}

fn row(members: Vec<(&str, Json)>) -> Row {
    members.into_iter().map(|(k, v)| (k.to_string(), v)).collect()
}

fn cond(column: &str, operator: &str, value: &str) -> FilterCondition {
    FilterCondition {
        id: "f".into(),
        column: column.into(),
        operator: operator.into(),
        value: value.into(),
        value2: None,
    }
}

#[test]
fn page_without_filters_or_sort() {
    let req = RowsRequest {
        table: "users".into(),
        page: 1,
        page_size: 100,
        sort: None,
        filters: None,
        filter_logic: None,
    };
    let (count, page) = rows_queries(&req);
    assert_eq!(count, "SELECT COUNT(*) as total FROM \"users\" ");
    assert_eq!(page, "SELECT * FROM \"users\"   LIMIT 100 OFFSET 0");
}

#[test]
fn page_with_filters_and_sort() {
    let req = RowsRequest {
        table: "users".into(),
        page: 3,
        page_size: 25,
        sort: Some(SortSpec { column: "name".into(), direction: "desc".into() }),
        filters: Some(vec![cond("age", ">", "18"), cond("name", "contains", "o")]),
        filter_logic: Some("or".into()),
    };
    let (count, page) = rows_queries(&req);
    assert_eq!(
        count,
        "SELECT COUNT(*) as total FROM \"users\" WHERE \"age\" > '18' OR \"name\" LIKE '%o%'"
    );
    assert_eq!(
        page,
        "SELECT * FROM \"users\" WHERE \"age\" > '18' OR \"name\" LIKE '%o%' ORDER BY \"name\" desc LIMIT 25 OFFSET 50"
    );
}

#[test]
fn empty_filter_list_and_default_logic() {
    let empty = RowsRequest {
        table: "t".into(),
        page: 2,
        page_size: 10,
        sort: None,
        filters: Some(vec![]),
        filter_logic: Some("or".into()),
    };
    assert_eq!(rows_queries(&empty).0, "SELECT COUNT(*) as total FROM \"t\" ");
    let no_logic = RowsRequest {
        table: "t".into(),
        page: 2,
        page_size: 10,
        sort: None,
        filters: Some(vec![cond("a", "=", "1"), cond("b", "=", "2")]),
        filter_logic: None,
    };
    assert_eq!(
        rows_queries(&no_logic).1,
        "SELECT * FROM \"t\" WHERE \"a\" = '1' AND \"b\" = '2'  LIMIT 10 OFFSET 10"
    );
}

#[test]
fn grid_requests() {
    let req = grid_request("t".into(), 1, 0, None, vec![], "and".into());
    assert_eq!(req.page_size, 1);
    assert_eq!(req.filters, None);
    assert_eq!(req.filter_logic, None);
    let req = grid_request("t".into(), 4, 50, None, vec![cond("a", "=", "1")], "or".into());
    assert_eq!(req.page, 4);
    assert_eq!(req.page_size, 50);
    assert_eq!(req.filters.map(|f| f.len()), Some(1));
    assert_eq!(req.filter_logic, Some("or".to_string()));
}

#[test]
fn row_edits() {
    assert_eq!(insert_sql("t", &vec![]), "INSERT INTO \"t\" DEFAULT VALUES");
    assert_eq!(
        insert_sql("t", &row(vec![("a", num(1)), ("b", s("x'y")), ("c", Json::Bool(true))])),
        "INSERT INTO \"t\" (\"a\", \"b\", \"c\") VALUES (1, 'x''y', 'true')"
    );
    assert_eq!(
        update_sql(
            "t",
            &row(vec![("id", num(7)), ("k", Json::Null)]),
            &row(vec![("name", s("Bob")), ("age", Json::Null)])
        ),
        "UPDATE \"t\" SET \"name\" = 'Bob', \"age\" = NULL WHERE \"id\" = 7 AND \"k\" IS NULL"
    );
    assert_eq!(
        delete_sql("we\"ird", &row(vec![("id", num(7))])),
        "DELETE FROM \"we\"ird\" WHERE \"id\" = 7"
    );
}

#[test]
fn mock_inserts() {
    assert_eq!(mock_insert_sql("\"t\"", &vec![]), None);
    assert_eq!(
        mock_insert_sql("\"t\"", &row(vec![("ok", Json::Bool(false)), ("n", num(3))])),
        Some("INSERT INTO \"t\" (\"ok\", \"n\") VALUES (FALSE, 3)".to_string())
    );
}

#[test]
fn export_queries() {
    assert_eq!(table_query("t"), "SELECT * FROM \"t\"");
    assert_eq!(export_query(Some("t"), Some("SELECT 1")), Ok("SELECT 1".to_string()));
    assert_eq!(export_query(Some("t"), Some("")), Ok("SELECT * FROM \"t\"".to_string()));
    assert_eq!(export_query(Some("t"), None), Ok("SELECT * FROM \"t\"".to_string()));
    assert_eq!(
        export_query(Some(""), None),
        Err("No table or SQL provided for export".to_string())
    );
    assert_eq!(
        export_query(None, Some("")),
        Err("No table or SQL provided for export".to_string())
    );
}

#[test]
fn profile_statements() {
    assert_eq!(total_query("\"t\""), "SELECT COUNT(*) as total FROM \"t\"");
    let q = profile_queries("c", "\"t\"");
    assert_eq!(
        q.stats,
        "SELECT COUNT(*) - COUNT(\"c\") as null_count, COUNT(DISTINCT \"c\") as distinct_count, MIN(\"c\"::text) as min_val, MAX(\"c\"::text) as max_val FROM \"t\""
    );
    assert_eq!(q.average, "SELECT AVG(\"c\"::numeric)::text as avg_val FROM \"t\"");
    assert_eq!(
        q.top,
        "SELECT \"c\"::text as val, COUNT(*) as cnt FROM \"t\" WHERE \"c\" IS NOT NULL GROUP BY \"c\" ORDER BY cnt DESC LIMIT 5"
    );
}

#[test]
fn numeric_types() {
    for t in ["INTEGER", "bigint", "Float8", "DOUBLE PRECISION", "decimal(10,2)", "NUMERIC", "real", "money", "bigserial"] {
        assert!(is_numeric_type(t), "{t}");
    }
    for t in ["text", "varchar(20)", "boolean", "date", "json"] {
        assert!(!is_numeric_type(t), "{t}");
    }
    assert!(is_numeric_type("POINT"));
}
