//! Table records shared by the server engines: the record of one
//! `information_schema` row, and the exact count that replaces a missing or
//! zero row estimate.

use vstd::prelude::*;

use crate::cells::{cell_or_empty, int_cell, int_reading, lookup, row_get, text};
use crate::json::Row;
use crate::text::{double_quotes, push_doubled, push_str, str_eq};
use crate::types::TableInfo;

verus! {

broadcast use vstd::string::group_string_axioms;

/// The record of one table row: its `name` and `type` cells as text and its
/// `row_count` cell read as an integer, `decimal` being the decimal reading
/// of a string cell.
pub open spec fn table_from(r: Row, decimal: Option<i64>, t: TableInfo) -> bool {
    &&& t.name@ == cell_or_empty(lookup(r@, "name"@))
    &&& t.kind@ == cell_or_empty(lookup(r@, "type"@))
    &&& t.row_count == int_reading(lookup(r@, "row_count"@), decimal)
}

/// The record of one table row.
pub fn table_from_row(r: &Row, decimal: Option<i64>) -> (t: TableInfo)
    ensures
        table_from(*r, decimal, t),
{
    TableInfo {
        name: text(row_get(r, "name")),
        kind: text(row_get(r, "type")),
        row_count: int_cell(row_get(r, "row_count"), decimal),
    }
}

/// A table, not a view, whose estimate is missing or zero is counted
/// exactly.
pub open spec fn wants_count(t: TableInfo) -> bool {
    t.kind@ == "table"@ && match t.row_count {
        Some(n) => n == 0,
        None => true,
    }
}

/// Whether the table's rows are counted exactly.
pub fn needs_row_count(t: &TableInfo) -> (r: bool)
    ensures
        r == wants_count(*t),
{
    str_eq(t.kind.as_str(), "table") && match t.row_count {
        Some(n) => n == 0,
        None => true,
    }
}

/// `SELECT COUNT(*)::bigint AS c FROM public."<table>"`, quotes in the name
/// doubled.
pub open spec fn postgres_count_text(table: Seq<char>) -> Seq<char> {
    "SELECT COUNT(*)::bigint AS c FROM public.\""@ + double_quotes(table, '"') + "\""@
}

/// The exact count of a Postgres table.
pub fn postgres_count_sql(table: &str) -> (r: String)
    ensures
        r@ == postgres_count_text(table@),
{
    let mut out = String::from_str("SELECT COUNT(*)::bigint AS c FROM public.\"");
    push_doubled(&mut out, table, '"');
    push_str(&mut out, "\"");
    out
}

/// ``SELECT COUNT(*) AS c FROM `<table>` ``, backticks in the name doubled.
pub open spec fn mysql_count_text(table: Seq<char>) -> Seq<char> {
    "SELECT COUNT(*) AS c FROM `"@ + double_quotes(table, '`') + "`"@
}

/// The exact count of a MySQL table.
pub fn mysql_count_sql(table: &str) -> (r: String)
    ensures
        r@ == mysql_count_text(table@),
{
    let mut out = String::from_str("SELECT COUNT(*) AS c FROM `");
    push_doubled(&mut out, table, '`');
    push_str(&mut out, "`");
    out
}

} // verus!
