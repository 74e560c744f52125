use ambry::export::{
    csv_export, csv_field, csv_options_from, export_data_text, export_file_text,
    insert_statements, CsvOptions,
};
use ambry::json::{pretty_rows, FloatRepr, Json, JsonNumber, Row};

fn s(v: &str) -> Json {
    Json::Str(v.to_string())
}

fn num(i: i64) -> Json {
    if i >= 0 {
        Json::Number(JsonNumber::PosInt(i as u64))
    } else {
        Json::Number(JsonNumber::NegInt(i))
    }
}

fn float(x: f64) -> Json {
    let number = serde_json::Number::from_f64(x).expect("finite");
    Json::Number(JsonNumber::Float(FloatRepr {
        json_text: number.to_string(),
        display_text: format!("{}", x),
        is_zero: x == 0.0,
        truncated: x as i64,
    }))
}

fn row(members: Vec<(&str, Json)>) -> Row {
    members.into_iter().map(|(k, v)| (k.to_string(), v)).collect()
}

fn to_serde(v: &Json) -> serde_json::Value {
    match v {
        Json::Null => serde_json::Value::Null,
        Json::Bool(b) => serde_json::Value::Bool(*b),
        Json::Number(JsonNumber::PosInt(u)) => serde_json::Value::from(*u),
        Json::Number(JsonNumber::NegInt(i)) => serde_json::Value::from(*i),
        Json::Number(JsonNumber::Float(f)) => {
            serde_json::Value::Number(f.json_text.parse::<serde_json::Number>().unwrap())
        }
        Json::Str(t) => serde_json::Value::String(t.clone()),
        Json::Array(items) => serde_json::Value::Array(items.iter().map(to_serde).collect()),
        Json::Object(members) => serde_json::Value::Object(
            members.iter().map(|(k, v)| (k.clone(), to_serde(v))).collect(),
        ),
    }
}

fn columns(names: &[&str]) -> Vec<String> {
    names.iter().map(|n| n.to_string()).collect()
}

fn sample() -> (Vec<String>, Vec<Row>) {
    (
        columns(&["id", "name", "ok"]),
        vec![
            row(vec![("id", num(1)), ("name", s("a,b")), ("ok", Json::Bool(true))]),
            row(vec![("id", num(2)), ("name", Json::Null), ("ok", Json::Bool(false))]),
            row(vec![("id", num(3)), ("name", s("say \"hi\"\nbye"))]),
        ],
    )
}

#[test]
fn csv_fields_quote_only_when_needed() {
    assert_eq!(csv_field("plain", ","), "plain");
    assert_eq!(csv_field("a,b", ","), "\"a,b\"");
    assert_eq!(csv_field("a;b", ","), "a;b");
    assert_eq!(csv_field("a;b", ";"), "\"a;b\"");
    assert_eq!(csv_field("x\"y", ","), "\"x\"\"y\"");
    assert_eq!(csv_field("l1\nl2", ","), "\"l1\nl2\"");
    assert_eq!(csv_field("", ","), "");
}

#[test]
fn data_export_csv() {
    let (cols, rows) = sample();
    let out = export_data_text(&cols, &rows, None, "csv").unwrap();
    assert_eq!(
        out,
        "id,name,ok\n1,\"a,b\",true\n2,,false\n3,\"say \"\"hi\"\"\nbye\","
    );
}

#[test]
fn data_export_sql_needs_table() {
    let (cols, rows) = sample();
    assert_eq!(
        export_data_text(&cols, &rows, None, "sql"),
        Err("Table name required for SQL export".to_string())
    );
    assert_eq!(
        export_data_text(&cols, &rows, Some(""), "sql"),
        Err("Table name required for SQL export".to_string())
    );
    let out = export_data_text(&cols, &rows, Some("t"), "sql").unwrap();
    assert_eq!(
        out,
        "INSERT INTO \"t\" (\"id\", \"name\", \"ok\") VALUES (1, 'a,b', 'true');\n\
         INSERT INTO \"t\" (\"id\", \"name\", \"ok\") VALUES (2, NULL, 'false');\n\
         INSERT INTO \"t\" (\"id\", \"name\", \"ok\") VALUES (3, 'say \"hi\"\nbye', NULL);"
    );
}

#[test]
fn data_export_unknown_format() {
    let (cols, rows) = sample();
    assert_eq!(
        export_data_text(&cols, &rows, Some("t"), "xml"),
        Err("Unknown format: xml".to_string())
    );
}

#[test]
fn json_export_matches_serde_pretty() {
    let (cols, rows) = sample();
    let mut with_nested = rows;
    with_nested.push(row(vec![
        ("id", float(2.5)),
        ("tags", Json::Array(vec![s("x"), Json::Null])),
        ("empty", Json::Array(vec![])),
        ("meta", Json::Object(vec![("k", num(-1))].into_iter().map(|(k, v)| (k.to_string(), v)).collect())),
        ("none", Json::Object(vec![])),
    ]));
    let expected = serde_json::to_string_pretty(
        &with_nested
            .iter()
            .map(|r| {
                serde_json::Value::Object(
                    r.iter().map(|(k, v)| (k.clone(), to_serde(v))).collect(),
                )
            })
            .collect::<Vec<_>>(),
    )
    .unwrap();
    assert_eq!(pretty_rows(&with_nested), expected);
    assert_eq!(export_data_text(&cols, &with_nested, None, "json").unwrap(), expected);
    assert_eq!(pretty_rows(&vec![]), "[]");
}

#[test]
fn file_export_csv_options() {
    let (cols, rows) = sample();
    let options = row(vec![
        ("delimiter", s(";")),
        ("nullAs", s("NULL")),
        ("includeHeaders", Json::Bool(true)),
    ]);
    let out = export_file_text("t", &cols, &rows, "csv", &options).unwrap();
    assert_eq!(out, "id;name;ok\n1;a,b;true\n2;NULL;false\n3;\"say \"\"hi\"\"\nbye\";NULL");

    let no_headers = row(vec![("includeHeaders", Json::Bool(false)), ("delimiter", s(""))]);
    let out = export_file_text("t", &cols, &rows, "csv", &no_headers).unwrap();
    assert_eq!(out, "1,\"a,b\",true\n2,,false\n3,\"say \"\"hi\"\"\nbye\",");

    let quoted_header = vec!["a,b".to_string()];
    let out = export_file_text("t", &quoted_header, &vec![], "csv", &vec![]).unwrap();
    assert_eq!(out, "\"a,b\"");
}

#[test]
fn file_export_sql_uses_keywords() {
    let (cols, mut rows) = sample();
    rows.truncate(1);
    let out = export_file_text("t", &cols, &rows, "sql", &vec![]).unwrap();
    assert_eq!(out, "INSERT INTO \"t\" (\"id\", \"name\", \"ok\") VALUES (1, 'a,b', TRUE);");
    assert_eq!(
        export_file_text("t", &cols, &rows, "tsv", &vec![]),
        Err("Unknown export format: tsv".to_string())
    );
}

#[test]
fn csv_options_defaults() {
    let options = csv_options_from(&vec![]);
    assert_eq!(options.delimiter, ",");
    assert_eq!(options.null_as, "");
    assert!(options.include_headers);
    let odd = csv_options_from(&row(vec![
        ("delimiter", num(5)),
        ("nullAs", Json::Bool(true)),
        ("includeHeaders", s("false")),
    ]));
    assert_eq!(odd.delimiter, ",");
    assert_eq!(odd.null_as, "");
    assert!(odd.include_headers);
}

#[test]
fn csv_export_and_insert_statements_directly() {
    let options = CsvOptions {
        delimiter: "|".to_string(),
        null_as: "-".to_string(),
        include_headers: false,
        quote_headers: false,
    };
    let rows = vec![row(vec![("a", s("x|y"))]), row(vec![])];
    assert_eq!(csv_export(&columns(&["a"]), &rows, &options), "\"x|y\"\n-");
    assert_eq!(insert_statements("\"t\"", &columns(&["a"]), &vec![], true), "");
    assert_eq!(
        insert_statements("\"t\"", &columns(&["a"]), &vec![row(vec![("a", Json::Bool(false))])], true),
        "INSERT INTO \"t\" (\"a\") VALUES (FALSE);"
    );
}

#[test]
fn csv_fields_read_back() {
    fn unquote(t: &str) -> String {
        if t.len() >= 2 && t.starts_with('"') {
            t[1..t.len() - 1].replace("\"\"", "\"")
        } else {
            t.to_string()
        }
    }
    for s in ["plain", "a,b", "say \"hi\"", "\"", "l1\nl2", ""] {
        assert_eq!(unquote(&csv_field(s, ",")), s);
    }
}
