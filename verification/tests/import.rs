use ambry::assets::Assets;
use ambry::import::{
    csv_delimiter, file_delimiter, given, missing_sql_result, mock_row_count, real_tables,
    sql_import_result, ImportProgress,
};
use ambry::types::TableInfo;

#[test]
fn import_stops_at_first_failure() {
    let mut progress = ImportProgress::new(3);
    assert!(progress.record(Ok(())));
    assert!(!progress.record(Err("duplicate key".into())));
    let result = progress.finish();
    assert_eq!(result.inserted, 1);
    assert_eq!(result.total, 3);
    assert_eq!(result.error, Some("Row 2: duplicate key".to_string()));
}

#[test]
fn import_all_succeed() {
    let mut progress = ImportProgress::new(2);
    assert!(progress.record(Ok(())));
    assert!(progress.record(Ok(())));
    let result = progress.finish();
    assert_eq!(result.inserted, 2);
    assert_eq!(result.error, None);
    let empty = ImportProgress::new(0).finish();
    assert_eq!((empty.inserted, empty.total, empty.error), (0, 0, None));
}

#[test]
fn single_statement_outcomes() {
    let ok = sql_import_result(Ok(4));
    assert!(ok.success);
    assert_eq!(ok.rows_affected, 4);
    assert_eq!(ok.error, None);
    let bad = sql_import_result(Err("syntax error".into()));
    assert!(!bad.success);
    assert_eq!(bad.rows_affected, 0);
    assert_eq!(bad.error, Some("syntax error".to_string()));
    let missing = missing_sql_result();
    assert!(!missing.success);
    assert_eq!(missing.error, Some("No SQL provided".to_string()));
}

#[test]
fn counts_and_delimiters() {
    assert_eq!(mock_row_count(0), 10);
    assert_eq!(mock_row_count(50), 50);
    assert_eq!(csv_delimiter(None), ",");
    assert_eq!(csv_delimiter(Some("")), ",");
    assert_eq!(csv_delimiter(Some(";")), ";");
    assert_eq!(file_delimiter("/data/x.tsv"), "\t");
    assert_eq!(file_delimiter("/data/x.csv"), ",");
    assert_eq!(file_delimiter("tsv"), ",");
    assert_eq!(given(None), None);
    assert_eq!(given(Some("")), None);
    assert_eq!(given(Some("/p")), Some("/p".to_string()));
}

#[test]
fn only_real_tables_are_compared() {
    let t = |name: &str, kind: &str| TableInfo { name: name.into(), kind: kind.into(), row_count: None };
    let tables = vec![t("a", "table"), t("v", "view"), t("b", "table"), t("c", "TABLE")];
    assert_eq!(real_tables(&tables), vec!["a", "b"]);
    assert!(real_tables(&vec![]).is_empty());
}

#[test]
fn assets_by_path() {
    let assets = Assets {
        files: vec![
            ("icons/a.svg".to_string(), vec![1, 2]),
            ("icons/b.svg".to_string(), vec![3]),
            ("fonts/x.ttf".to_string(), vec![]),
            ("icons/a.svg".to_string(), vec![9]),
        ],
    };
    assert_eq!(assets.load("icons/a.svg"), Some(&vec![1u8, 2]));
    assert_eq!(assets.load("fonts/x.ttf"), Some(&vec![]));
    assert_eq!(assets.load("icons/c.svg"), None);
    assert_eq!(assets.list("icons/"), vec!["icons/a.svg", "icons/b.svg", "icons/a.svg"]);
    assert_eq!(assets.list("").len(), 4);
    assert!(assets.list("img").is_empty());
}
