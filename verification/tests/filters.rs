use ambry::filters::{build_filter_clause, quote_ident, sql_string};
use ambry::types::FilterCondition;

fn f(column: &str, operator: &str, value: &str) -> FilterCondition {
    FilterCondition {
        id: "1".into(),
        column: column.into(),
        operator: operator.into(),
        value: value.into(),
        value2: None,
    }
}

#[test]
fn quotes_idents_without_escaping() {
    assert_eq!(quote_ident("users"), "\"users\"");
    assert_eq!(quote_ident("we\"ird"), "\"we\"ird\"");
}

#[test]
fn quotes_strings_doubling_single_quotes() {
    assert_eq!(sql_string("O'Brien"), "'O''Brien'");
}

#[test]
fn builds_simple_comparisons_string_quoted() {
    assert_eq!(build_filter_clause(&[f("age", "=", "30")], "and"), "WHERE \"age\" = '30'");
    assert_eq!(build_filter_clause(&[f("age", ">=", "18")], "and"), "WHERE \"age\" >= '18'");
}

#[test]
fn joins_with_and_or() {
    let filters = [f("a", "=", "1"), f("b", "!=", "2")];
    assert_eq!(build_filter_clause(&filters, "and"), "WHERE \"a\" = '1' AND \"b\" != '2'");
    assert_eq!(build_filter_clause(&filters, "or"), "WHERE \"a\" = '1' OR \"b\" != '2'");
}

#[test]
fn builds_like_variants() {
    assert_eq!(build_filter_clause(&[f("n", "contains", "x")], "and"), "WHERE \"n\" LIKE '%x%'");
    assert_eq!(
        build_filter_clause(&[f("n", "not_contains", "x")], "and"),
        "WHERE \"n\" NOT LIKE '%x%'"
    );
    assert_eq!(build_filter_clause(&[f("n", "starts_with", "x")], "and"), "WHERE \"n\" LIKE 'x%'");
    assert_eq!(build_filter_clause(&[f("n", "ends_with", "x")], "and"), "WHERE \"n\" LIKE '%x'");
}

#[test]
fn builds_null_checks_ignoring_value() {
    assert_eq!(build_filter_clause(&[f("n", "is_null", "junk")], "and"), "WHERE \"n\" IS NULL");
    assert_eq!(
        build_filter_clause(&[f("n", "is_not_null", "")], "and"),
        "WHERE \"n\" IS NOT NULL"
    );
}

#[test]
fn builds_in_from_comma_split_trimmed() {
    assert_eq!(
        build_filter_clause(&[f("id", "in", "1, 2 ,3")], "and"),
        "WHERE \"id\" IN ('1', '2', '3')"
    );
}

#[test]
fn builds_between_from_value2() {
    let mut filter = f("age", "between", "18");
    filter.value2 = Some("65".into());
    assert_eq!(build_filter_clause(&[filter], "and"), "WHERE \"age\" BETWEEN '18' AND '65'");
}

#[test]
fn between_missing_value2_becomes_undefined() {
    assert_eq!(
        build_filter_clause(&[f("age", "between", "18")], "and"),
        "WHERE \"age\" BETWEEN '18' AND 'undefined'"
    );
}

#[test]
fn escapes_single_quotes_in_values() {
    assert_eq!(
        build_filter_clause(&[f("name", "=", "O'Brien")], "and"),
        "WHERE \"name\" = 'O''Brien'"
    );
}

#[test]
fn drops_unknown_operators() {
    assert_eq!(build_filter_clause(&[f("a", "bogus", "1")], "and"), "");
    assert_eq!(
        build_filter_clause(&[f("a", "bogus", "1"), f("b", "=", "2")], "and"),
        "WHERE \"b\" = '2'"
    );
}

#[test]
fn empty_filters_yield_empty_string() {
    assert_eq!(build_filter_clause(&[], "and"), "");
}

#[test]
fn in_list_keeps_empty_pieces_and_escapes() {
    assert_eq!(
        build_filter_clause(&[f("n", "in", "a,, O'B ")], "and"),
        "WHERE \"n\" IN ('a', '', 'O''B')"
    );
}

#[test]
fn comparison_operators_all_quote_values() {
    assert_eq!(build_filter_clause(&[f("x", "<", "5")], "or"), "WHERE \"x\" < '5'");
    assert_eq!(build_filter_clause(&[f("x", ">", "5")], "xor"), "WHERE \"x\" > '5'");
    assert_eq!(build_filter_clause(&[f("x", "<=", "5")], "and"), "WHERE \"x\" <= '5'");
}

#[test]
fn different_values_give_different_literals() {
    let values = ["", "'", "''", "a'", "a''", "'a", "O'Brien", "O''Brien"];
    for a in values {
        for b in values {
            assert_eq!(sql_string(a) == sql_string(b), a == b, "{a:?} {b:?}");
        }
    }
    assert_ne!(quote_ident("a"), quote_ident("b"));
}

#[test]
fn string_literals_read_back() {
    for v in ["", "'", "O'Brien", "''x''", "plain"] {
        let lit = sql_string(v);
        assert_eq!(lit.len(), v.len() + 2 + v.matches('\'').count());
        assert_eq!(lit[1..lit.len() - 1].replace("''", "'"), v);
    }
}
