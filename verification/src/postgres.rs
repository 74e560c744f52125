//! The Postgres side of the adapter layer: which statements return rows,
//! folding the simple-protocol messages of a script into one result, and
//! turning introspection rows into schema records.

use vstd::prelude::*;

use crate::cells::{cell_opt_text, cell_or_empty, is_truthy, lookup, row_get, text, text_opt, truthy};
use crate::json::{Json, Row};
use crate::results::RawResult;
use crate::text::{
    all_ws, law_trim_ignores_surrounding_ws,
    ascii_upper, is_ascii_text, law_uppercased_trim_ignores_ascii_case,
    contains, contains_exec, has_prefix, join, opt_text, push_str, starts_with, to_uppercase, trim,
    trimmed, uppercase_of,
};
use crate::types::{ColumnInfo, ForeignKeyInfo, IndexInfo};

verus! {

broadcast use vstd::string::group_string_axioms;

// ---------------------------------------------------------------------------
// Introspection statements
// ---------------------------------------------------------------------------

/// The tables and views of the `public` schema with their row estimates.
pub const TABLES_SQL: &'static str = "SELECT
  t.table_name as name,
  CASE t.table_type WHEN 'BASE TABLE' THEN 'table' ELSE 'view' END as type,
  s.n_live_tup as row_count
FROM information_schema.tables t
LEFT JOIN pg_stat_user_tables s ON s.relname = t.table_name
WHERE t.table_schema = 'public'
ORDER BY t.table_name";

/// The columns of table `$1`, with primary-key flag and comment.
pub const COLUMNS_SQL: &'static str = "SELECT
  c.column_name as name,
  c.data_type as data_type,
  c.is_nullable = 'YES' as nullable,
  c.column_default as default_value,
  COALESCE(
    (SELECT true FROM information_schema.table_constraints tc
     JOIN information_schema.key_column_usage kcu ON tc.constraint_name = kcu.constraint_name
     WHERE tc.table_name = $1 AND tc.constraint_type = 'PRIMARY KEY'
     AND kcu.column_name = c.column_name LIMIT 1), false
  ) as is_primary_key,
  pgd.description as comment
FROM information_schema.columns c
LEFT JOIN pg_catalog.pg_statio_all_tables st ON st.relname = c.table_name AND st.schemaname = c.table_schema
LEFT JOIN pg_catalog.pg_description pgd ON pgd.objoid = st.relid AND pgd.objsubid = c.ordinal_position
WHERE c.table_name = $1 AND c.table_schema = 'public'
ORDER BY c.ordinal_position";

/// The indexes of table `$1` with their columns in key order.
pub const INDEXES_SQL: &'static str = "SELECT
  i.relname as name,
  array_agg(a.attname ORDER BY array_position(ix.indkey, a.attnum)) as columns,
  am.amname as type,
  ix.indisunique as is_unique
FROM pg_index ix
JOIN pg_class t ON t.oid = ix.indrelid
JOIN pg_class i ON i.oid = ix.indexrelid
JOIN pg_am am ON am.oid = i.relam
JOIN pg_attribute a ON a.attrelid = t.oid AND a.attnum = ANY(ix.indkey)
WHERE t.relname = $1
GROUP BY i.relname, am.amname, ix.indisunique
ORDER BY i.relname";

/// The foreign keys of table `$1` with their rules.
pub const FOREIGN_KEYS_SQL: &'static str = "SELECT
  tc.constraint_name as name,
  array_agg(DISTINCT kcu.column_name) as columns,
  ccu.table_name as referenced_table,
  array_agg(DISTINCT ccu.column_name) as referenced_columns,
  rc.delete_rule as on_delete,
  rc.update_rule as on_update
FROM information_schema.table_constraints tc
JOIN information_schema.key_column_usage kcu ON tc.constraint_name = kcu.constraint_name
JOIN information_schema.constraint_column_usage ccu ON tc.constraint_name = ccu.constraint_name
JOIN information_schema.referential_constraints rc ON tc.constraint_name = rc.constraint_name
WHERE tc.table_name = $1 AND tc.constraint_type = 'FOREIGN KEY'
GROUP BY tc.constraint_name, ccu.table_name, rc.delete_rule, rc.update_rule";

/// The column lines a `CREATE TABLE` for table `$1` is rebuilt from.
pub const DDL_SQL: &'static str = "SELECT column_name, data_type, is_nullable, column_default FROM information_schema.columns WHERE table_name = $1 AND table_schema = 'public' ORDER BY ordinal_position";

/// The server version.
pub const VERSION_SQL: &'static str = "SELECT version()";

/// The databases of the server, templates left out.
pub const DATABASES_SQL: &'static str = "SELECT datname FROM pg_database WHERE datistemplate = false ORDER BY datname";


// ---------------------------------------------------------------------------
// Statement classification
// ---------------------------------------------------------------------------

/// An uppercased statement that returns rows: one starting with `SELECT`,
/// `WITH`, `SHOW`, `EXPLAIN`, `VALUES` or `TABLE`.
pub open spec fn reads_rows(upper: Seq<char>) -> bool {
    ||| has_prefix(upper, "SELECT"@)
    ||| has_prefix(upper, "WITH"@)
    ||| has_prefix(upper, "SHOW"@)
    ||| has_prefix(upper, "EXPLAIN"@)
    ||| has_prefix(upper, "VALUES"@)
    ||| has_prefix(upper, "TABLE"@)
}

/// Whether an already trimmed and uppercased statement returns rows.
pub fn is_read_upper(upper: &str) -> (r: bool)
    ensures
        r == reads_rows(upper@),
{
    starts_with(upper, "SELECT") || starts_with(upper, "WITH") || starts_with(upper, "SHOW")
        || starts_with(upper, "EXPLAIN") || starts_with(upper, "VALUES") || starts_with(
        upper,
        "TABLE",
    )
}

/// Whether a statement returns rows, judged by the first word of its
/// trimmed, uppercased text.
pub fn is_read(sql: &str) -> (r: bool)
    ensures
        r == reads_rows(uppercase_of(trim(sql@))),
        is_ascii_text(sql@) ==> r == reads_rows(
            trim(sql@).map_values(|c: char| ascii_upper(c)),
        ),
{
    proof {
        if is_ascii_text(sql@) {
            law_uppercased_trim_ignores_ascii_case(sql@, sql@);
        }
    }
    let t = trimmed(sql);
    let upper = to_uppercase(t.as_str());
    is_read_upper(upper.as_str())
}

/// For ASCII statements the classification ignores letter case: two
/// statements that differ only in the case of their letters are both read
/// statements or both not.
pub proof fn law_read_classification_ignores_ascii_case(a: Seq<char>, b: Seq<char>)
    requires
        is_ascii_text(a),
        is_ascii_text(b),
        a.map_values(|c: char| ascii_upper(c)) == b.map_values(|c: char| ascii_upper(c)),
    ensures
        reads_rows(trim(a).map_values(|c: char| ascii_upper(c))) == reads_rows(
            trim(b).map_values(|c: char| ascii_upper(c)),
        ),
{
    law_uppercased_trim_ignores_ascii_case(a, b);
}

/// Whitespace around a statement does not change its classification.
pub proof fn law_read_classification_ignores_surrounding_ws(a: Seq<char>, sql: Seq<char>, b: Seq<char>)
    requires
        all_ws(a),
        all_ws(b),
    ensures
        reads_rows(uppercase_of(trim(a + sql + b))) == reads_rows(uppercase_of(trim(sql))),
{
    law_trim_ignores_surrounding_ws(a, sql, b);
}

// ---------------------------------------------------------------------------
// Simple-protocol scripts
// ---------------------------------------------------------------------------

/// Whether a server error refuses a script of several statements over the
/// extended protocol, which the simple protocol then runs instead.
pub fn is_multi_statement_error(message: &str) -> (r: bool)
    ensures
        r == contains(message@, "cannot insert multiple commands"@),
{
    contains_exec(message, "cannot insert multiple commands")
}

/// One message of a simple-protocol exchange, as far as results go.
#[derive(Debug)]
pub enum SimpleMessage {
    /// A data row.
    Row(Row),
    /// The end of a statement, with its affected count.
    CommandComplete(u64),
    /// Anything else.
    Other,
}

/// After the first `k` messages: the rows of the statement in progress, the
/// rows of the last completed statement, and its count.
pub open spec fn simple_state(msgs: Seq<SimpleMessage>) -> (Seq<Row>, Seq<Row>, u64)
    decreases msgs.len(),
{
    if msgs.len() == 0 {
        (Seq::empty(), Seq::empty(), 0)
    } else {
        let (cur, last, count) = simple_state(msgs.drop_last());
        match msgs.last() {
            SimpleMessage::Row(r) => (cur.push(r), last, count),
            SimpleMessage::CommandComplete(n) => (Seq::empty(), cur, n),
            SimpleMessage::Other => (cur, last, count),
        }
    }
}

/// The column names of a row, in order.
pub open spec fn row_keys(r: Row) -> Seq<Seq<char>> {
    r@.map_values(|m: (String, Json)| m.0@)
}

/// The result of a script: the rows of its last completed statement, their
/// columns as the first row names them, and as count the number of those
/// rows, or the statement's own count when it returned none.
pub open spec fn simple_result_ok(msgs: Seq<SimpleMessage>, r: RawResult) -> bool {
    let (_, last, count) = simple_state(msgs);
    &&& r.rows@ == last
    &&& r.column_types@.len() == 0
    &&& r.columns@.map_values(|c: String| c@) == if last.len() == 0 {
        Seq::empty()
    } else {
        row_keys(last[0])
    }
    &&& r.rows_affected == if last.len() == 0 {
        count
    } else {
        last.len() as u64
    }
}

/// `v` in reverse order.
fn reversed<T>(v: Vec<T>) -> (r: Vec<T>)
    ensures
        r@ == v@.reverse(),
{
    let ghost orig = v@;
    let mut v = v;
    let mut out: Vec<T> = Vec::new();
    while v.len() > 0
        invariant
            v@ == orig.take(v@.len() as int),
            out@ == orig.skip(v@.len() as int).reverse(),
            v@.len() <= orig.len(),
        decreases v@.len(),
    {
        let ghost before = v@.len();
        let x = v.pop().unwrap();
        out.push(x);
        assert(v@ =~= orig.take(v@.len() as int));
        assert(out@ =~= orig.skip(v@.len() as int).reverse());
    }
    assert(out@ =~= orig.reverse());
    out
}

/// The column names of a row.
fn keys_of(r: &Row) -> (k: Vec<String>)
    ensures
        k@.map_values(|c: String| c@) == row_keys(*r),
{
    let mut out: Vec<String> = Vec::new();
    let mut i: usize = 0;
    while i < r.len()
        invariant
            i <= r@.len(),
            out@.len() == i,
            forall|k: int| 0 <= k < i ==> (#[trigger] out@[k])@ == r@[k].0@,
        decreases r@.len() - i,
    {
        out.push(r[i].0.clone());
        i = i + 1;
    }
    assert(out@.map_values(|c: String| c@) =~= row_keys(*r));
    out
}

/// Folds the messages of a multi-statement script run over the simple
/// protocol into one result: the last completed statement's rows.
pub fn simple_result(messages: Vec<SimpleMessage>) -> (r: RawResult)
    ensures
        simple_result_ok(messages@, r),
{
    let ghost msgs = messages@;
    let mut rest = reversed(messages);
    let mut current: Vec<Row> = Vec::new();
    let mut last_rows: Vec<Row> = Vec::new();
    let mut last_count: u64 = 0;
    let ghost mut k: int = 0;
    while rest.len() > 0
        invariant
            0 <= k <= msgs.len(),
            rest@ == msgs.skip(k).reverse(),
            simple_state(msgs.take(k)) == (current@, last_rows@, last_count),
        decreases rest@.len(),
    {
        let m = rest.pop().unwrap();
        proof {
            assert(m == msgs[k]);
            let t = msgs.take(k + 1);
            assert(t.drop_last() =~= msgs.take(k));
            assert(t.last() == msgs[k]);
        }
        match m {
            SimpleMessage::Row(row) => {
                current.push(row);
            },
            SimpleMessage::CommandComplete(n) => {
                last_rows = current;
                current = Vec::new();
                last_count = n;
            },
            SimpleMessage::Other => {},
        }
        proof {
            k = k + 1;
        }
        assert(rest@ =~= msgs.skip(k).reverse());
    }
    assert(msgs.take(k) =~= msgs) by {
        assert(msgs.skip(k).len() == 0);
    }
    let columns = if last_rows.len() > 0 {
        keys_of(&last_rows[0])
    } else {
        Vec::new()
    };
    assert(simple_state(msgs) == (current@, last_rows@, last_count));
    let rows_affected = if last_rows.len() == 0 {
        last_count
    } else {
        last_rows.len() as u64
    };
    let r = RawResult { columns, column_types: Vec::new(), rows: last_rows, rows_affected };
    assert(r.rows@ == simple_state(msgs).1);
    assert(r.column_types@.len() == 0);
    assert(simple_state(msgs).1.len() > 0 ==> r.columns@.map_values(|c: String| c@) == row_keys(simple_state(msgs).1[0]));
    assert(simple_state(msgs).1.len() == 0 ==> r.columns@.map_values(|c: String| c@) =~= Seq::<Seq<char>>::empty());
    assert(r.rows_affected == if simple_state(msgs).1.len() == 0 { simple_state(msgs).2 } else { simple_state(msgs).1.len() as u64 });
    r
}

// ---------------------------------------------------------------------------
// Introspection rows
// ---------------------------------------------------------------------------

/// The texts of an array cell; nothing for a cell that is not an array.
pub open spec fn list_texts(v: Option<Json>) -> Seq<Seq<char>> {
    match v {
        Some(Json::Array(items)) => items@.map_values(|c: Json| cell_or_empty(Some(c))),
        _ => Seq::empty(),
    }
}

/// The texts of the array cell `name`, empty when it is not an array.
pub fn string_list(row: &Row, name: &str) -> (r: Vec<String>)
    ensures
        r@.map_values(|s: String| s@) == list_texts(lookup(row@, name@)),
{
    match row_get(row, name) {
        Some(Json::Array(items)) => {
            let mut out: Vec<String> = Vec::new();
            let mut i: usize = 0;
            while i < items.len()
                invariant
                    i <= items@.len(),
                    out@.len() == i,
                    forall|k: int|
                        0 <= k < i ==> (#[trigger] out@[k])@ == cell_or_empty(Some(items@[k])),
                decreases items@.len() - i,
            {
                out.push(text(Some(&items[i])));
                i = i + 1;
            }
            assert(out@.map_values(|s: String| s@) =~= items@.map_values(
                |c: Json| cell_or_empty(Some(c)),
            ));
            out
        },
        _ => Vec::new(),
    }
}

/// A column record read from a `name`, `data_type`, `nullable`,
/// `default_value`, `is_primary_key`, `comment` row.
pub open spec fn column_from(r: Row, c: ColumnInfo) -> bool {
    &&& c.name@ == cell_or_empty(lookup(r@, "name"@))
    &&& c.data_type@ == cell_or_empty(lookup(r@, "data_type"@))
    &&& c.nullable == is_truthy(lookup(r@, "nullable"@))
    &&& opt_text(c.default_value) == cell_opt_text(lookup(r@, "default_value"@))
    &&& c.is_primary_key == is_truthy(lookup(r@, "is_primary_key"@))
    &&& opt_text(c.comment) == cell_opt_text(lookup(r@, "comment"@))
}

/// The optional text of a cell as a value.
fn opt_string(v: Option<&Json>) -> (r: Option<String>)
    ensures
        opt_text(r) == cell_opt_text(crate::cells::opt_json(v)),
{
    text_opt(v)
}

/// Column records from the column introspection rows.
pub fn columns_from_rows(rows: &Vec<Row>) -> (r: Vec<ColumnInfo>)
    ensures
        r@.len() == rows@.len(),
        forall|i: int| 0 <= i < rows@.len() ==> column_from(#[trigger] rows@[i], r@[i]),
{
    let mut out: Vec<ColumnInfo> = Vec::new();
    let mut i: usize = 0;
    while i < rows.len()
        invariant
            i <= rows@.len(),
            out@.len() == i,
            forall|k: int| 0 <= k < i ==> column_from(#[trigger] rows@[k], out@[k]),
        decreases rows@.len() - i,
    {
        let r = &rows[i];
        let c = ColumnInfo {
            name: text(row_get(r, "name")),
            data_type: text(row_get(r, "data_type")),
            nullable: truthy(row_get(r, "nullable")),
            default_value: opt_string(row_get(r, "default_value")),
            is_primary_key: truthy(row_get(r, "is_primary_key")),
            comment: opt_string(row_get(r, "comment")),
        };
        out.push(c);
        i = i + 1;
    }
    out
}

/// An index record read from a `name`, `columns`, `type`, `is_unique` row.
pub open spec fn index_from(r: Row, x: IndexInfo) -> bool {
    &&& x.name@ == cell_or_empty(lookup(r@, "name"@))
    &&& x.columns@.map_values(|s: String| s@) == list_texts(lookup(r@, "columns"@))
    &&& x.kind@ == cell_or_empty(lookup(r@, "type"@))
    &&& x.unique == is_truthy(lookup(r@, "is_unique"@))
}

/// Index records from the index introspection rows.
pub fn indexes_from_rows(rows: &Vec<Row>) -> (r: Vec<IndexInfo>)
    ensures
        r@.len() == rows@.len(),
        forall|i: int| 0 <= i < rows@.len() ==> index_from(#[trigger] rows@[i], r@[i]),
{
    let mut out: Vec<IndexInfo> = Vec::new();
    let mut i: usize = 0;
    while i < rows.len()
        invariant
            i <= rows@.len(),
            out@.len() == i,
            forall|k: int| 0 <= k < i ==> index_from(#[trigger] rows@[k], out@[k]),
        decreases rows@.len() - i,
    {
        let r = &rows[i];
        let x = IndexInfo {
            name: text(row_get(r, "name")),
            columns: string_list(r, "columns"),
            kind: text(row_get(r, "type")),
            unique: truthy(row_get(r, "is_unique")),
        };
        out.push(x);
        i = i + 1;
    }
    out
}

/// A foreign-key record read from a `name`, `columns`, `referenced_table`,
/// `referenced_columns`, `on_delete`, `on_update` row.
pub open spec fn foreign_key_from(r: Row, f: ForeignKeyInfo) -> bool {
    &&& f.name@ == cell_or_empty(lookup(r@, "name"@))
    &&& f.columns@.map_values(|s: String| s@) == list_texts(lookup(r@, "columns"@))
    &&& f.referenced_table@ == cell_or_empty(lookup(r@, "referenced_table"@))
    &&& f.referenced_columns@.map_values(|s: String| s@) == list_texts(
        lookup(r@, "referenced_columns"@),
    )
    &&& f.on_delete@ == cell_or_empty(lookup(r@, "on_delete"@))
    &&& f.on_update@ == cell_or_empty(lookup(r@, "on_update"@))
}

/// Foreign-key records from the constraint introspection rows.
pub fn foreign_keys_from_rows(rows: &Vec<Row>) -> (r: Vec<ForeignKeyInfo>)
    ensures
        r@.len() == rows@.len(),
        forall|i: int| 0 <= i < rows@.len() ==> foreign_key_from(#[trigger] rows@[i], r@[i]),
{
    let mut out: Vec<ForeignKeyInfo> = Vec::new();
    let mut i: usize = 0;
    while i < rows.len()
        invariant
            i <= rows@.len(),
            out@.len() == i,
            forall|k: int| 0 <= k < i ==> foreign_key_from(#[trigger] rows@[k], out@[k]),
        decreases rows@.len() - i,
    {
        let r = &rows[i];
        let f = ForeignKeyInfo {
            name: text(row_get(r, "name")),
            columns: string_list(r, "columns"),
            referenced_table: text(row_get(r, "referenced_table")),
            referenced_columns: string_list(r, "referenced_columns"),
            on_delete: text(row_get(r, "on_delete")),
            on_update: text(row_get(r, "on_update")),
        };
        out.push(f);
        i = i + 1;
    }
    out
}

/// One column line of the reconstructed DDL:
/// `  "name" type[ NOT NULL][ DEFAULT expr]`.
pub open spec fn ddl_line(r: Row) -> Seq<char> {
    let base = "  \""@ + cell_or_empty(lookup(r@, "column_name"@)) + "\" "@ + cell_or_empty(
        lookup(r@, "data_type"@),
    );
    let with_null = if cell_or_empty(lookup(r@, "is_nullable"@)) == "NO"@ {
        base + " NOT NULL"@
    } else {
        base
    };
    match cell_opt_text(lookup(r@, "column_default"@)) {
        Some(d) => if d.len() > 0 {
            with_null + " DEFAULT "@ + d
        } else {
            with_null
        },
        None => with_null,
    }
}

/// `CREATE TABLE "table" (\n<lines joined with ",\n">\n);`.
pub open spec fn ddl_text(table: Seq<char>, rows: Seq<Row>) -> Seq<char> {
    "CREATE TABLE \""@ + table + "\" (\n"@ + join(rows.map_values(|r: Row| ddl_line(r)), ",\n"@)
        + "\n);"@
}

/// One column line of the reconstructed DDL.
fn ddl_line_exec(r: &Row) -> (s: String)
    ensures
        s@ == ddl_line(*r),
{
    let mut line = String::from_str("  \"");
    let name = text(row_get(r, "column_name"));
    push_str(&mut line, name.as_str());
    push_str(&mut line, "\" ");
    let ty = text(row_get(r, "data_type"));
    push_str(&mut line, ty.as_str());
    let nullable = text(row_get(r, "is_nullable"));
    if crate::text::str_eq(nullable.as_str(), "NO") {
        push_str(&mut line, " NOT NULL");
    }
    match text_opt(row_get(r, "column_default")) {
        Some(d) => {
            if !d.as_str().is_empty() {
                push_str(&mut line, " DEFAULT ");
                push_str(&mut line, d.as_str());
            }
        },
        None => {},
    }
    line
}

/// The `CREATE TABLE` text rebuilt from the column rows (name, type,
/// nullability, default) of a table.
pub fn ddl_from_rows(table: &str, rows: &Vec<Row>) -> (r: String)
    ensures
        r@ == ddl_text(table@, rows@),
{
    let mut lines: Vec<String> = Vec::new();
    let mut i: usize = 0;
    while i < rows.len()
        invariant
            i <= rows@.len(),
            lines@.len() == i,
            forall|k: int| 0 <= k < i ==> (#[trigger] lines@[k])@ == ddl_line(rows@[k]),
        decreases rows@.len() - i,
    {
        lines.push(ddl_line_exec(&rows[i]));
        i = i + 1;
    }
    let body = crate::text::join_strings(&lines, ",\n");
    assert(lines@.map_values(|s: String| s@) =~= rows@.map_values(|r: Row| ddl_line(r)));
    let mut out = String::from_str("CREATE TABLE \"");
    push_str(&mut out, table);
    push_str(&mut out, "\" (\n");
    push_str(&mut out, body.as_str());
    push_str(&mut out, "\n);");
    out
}

/// The `version` cell of the first row, or `unknown`.
pub open spec fn version_text(rows: Seq<Row>) -> Seq<char> {
    if rows.len() == 0 {
        "unknown"@
    } else {
        match cell_opt_text(lookup(rows[0]@, "version"@)) {
            Some(v) => v,
            None => "unknown"@,
        }
    }
}

/// The server version from `SELECT version()`.
pub fn version_from_rows(rows: &Vec<Row>) -> (r: String)
    ensures
        r@ == version_text(rows@),
{
    if rows.len() == 0 {
        return String::from_str("unknown");
    }
    match text_opt(row_get(&rows[0], "version")) {
        Some(v) => v,
        None => String::from_str("unknown"),
    }
}

/// The texts of cell `name` of every row.
pub open spec fn column_texts(rows: Seq<Row>, name: Seq<char>) -> Seq<Seq<char>> {
    rows.map_values(|r: Row| cell_or_empty(lookup(r@, name)))
}

/// The text of cell `name` of every row, in order.
pub fn texts_of_column(rows: &Vec<Row>, name: &str) -> (r: Vec<String>)
    ensures
        r@.map_values(|s: String| s@) == column_texts(rows@, name@),
{
    let mut out: Vec<String> = Vec::new();
    let mut i: usize = 0;
    while i < rows.len()
        invariant
            i <= rows@.len(),
            out@.len() == i,
            forall|k: int|
                0 <= k < i ==> (#[trigger] out@[k])@ == cell_or_empty(lookup(rows@[k]@, name@)),
        decreases rows@.len() - i,
    {
        out.push(text(row_get(&rows[i], name)));
        i = i + 1;
    }
    assert(out@.map_values(|s: String| s@) =~= column_texts(rows@, name@));
    out
}

} // verus!
