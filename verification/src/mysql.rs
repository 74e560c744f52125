//! The MySQL side of the adapter layer: rendering temporal values, splitting
//! `GROUP_CONCAT` lists, and turning introspection rows into schema records.

use vstd::prelude::*;

use crate::cells::{cell_opt_text, cell_or_empty, is_truthy, lookup, opt_json, row_get, text, text_opt, truthy};
use crate::json::{Json, Row};
use crate::text::{
    decimal, opt_text, push_char, push_padded, push_str, split_char, split_on, str_eq, zero_pad,
};
use crate::types::{ColumnInfo, ForeignKeyInfo, IndexInfo};

verus! {

broadcast use vstd::string::group_string_axioms;

// ---------------------------------------------------------------------------
// Introspection statements
// ---------------------------------------------------------------------------

/// The tables and views of the current database with their row estimates.
pub const TABLES_SQL: &'static str = "SELECT
  TABLE_NAME as name,
  CASE TABLE_TYPE WHEN 'BASE TABLE' THEN 'table' ELSE 'view' END as type,
  TABLE_ROWS as row_count
FROM information_schema.TABLES
WHERE TABLE_SCHEMA = DATABASE()
ORDER BY TABLE_NAME";

/// The columns of table `?`.
pub const COLUMNS_SQL: &'static str = "SELECT
  COLUMN_NAME as name,
  COLUMN_TYPE as data_type,
  IS_NULLABLE = 'YES' as nullable,
  COLUMN_DEFAULT as default_value,
  COLUMN_KEY = 'PRI' as is_primary_key,
  COLUMN_COMMENT as comment
FROM information_schema.COLUMNS
WHERE TABLE_SCHEMA = DATABASE() AND TABLE_NAME = ?
ORDER BY ORDINAL_POSITION";

/// The indexes of table `?` with their columns as one comma-separated list.
pub const INDEXES_SQL: &'static str = "SELECT
  INDEX_NAME as name,
  GROUP_CONCAT(COLUMN_NAME ORDER BY SEQ_IN_INDEX) as columns_str,
  INDEX_TYPE as type,
  NOT NON_UNIQUE as is_unique
FROM information_schema.STATISTICS
WHERE TABLE_SCHEMA = DATABASE() AND TABLE_NAME = ?
GROUP BY INDEX_NAME, INDEX_TYPE, NON_UNIQUE
ORDER BY INDEX_NAME";

/// The foreign keys of table `?` with their columns as comma-separated lists.
pub const FOREIGN_KEYS_SQL: &'static str = "SELECT
  CONSTRAINT_NAME as name,
  GROUP_CONCAT(DISTINCT COLUMN_NAME) as columns_str,
  REFERENCED_TABLE_NAME as referenced_table,
  GROUP_CONCAT(DISTINCT REFERENCED_COLUMN_NAME) as ref_columns_str
FROM information_schema.KEY_COLUMN_USAGE
WHERE TABLE_SCHEMA = DATABASE()
  AND TABLE_NAME = ?
  AND REFERENCED_TABLE_NAME IS NOT NULL
GROUP BY CONSTRAINT_NAME, REFERENCED_TABLE_NAME";

/// The delete and update rules of the foreign keys of table `?`.
pub const ACTIONS_SQL: &'static str = "SELECT CONSTRAINT_NAME as name, DELETE_RULE as on_delete, UPDATE_RULE as on_update
FROM information_schema.REFERENTIAL_CONSTRAINTS
WHERE CONSTRAINT_SCHEMA = DATABASE() AND TABLE_NAME = ?";

/// The server version.
pub const VERSION_SQL: &'static str = "SELECT VERSION() as v";

/// The databases of the server.
pub const DATABASES_SQL: &'static str = "SHOW DATABASES";

/// ``SHOW CREATE TABLE `<table>` ``, the name written as it is.
pub open spec fn show_create_text(table: Seq<char>) -> Seq<char> {
    "SHOW CREATE TABLE `"@ + table + "`"@
}

/// The statement showing a table's definition. Backticks in the name are
/// not escaped.
pub fn show_create_sql(table: &str) -> (r: String)
    ensures
        r@ == show_create_text(table@),
{
    let mut out = String::from_str("SHOW CREATE TABLE `");
    push_str(&mut out, table);
    push_str(&mut out, "`");
    out
}


// ---------------------------------------------------------------------------
// Temporal values
// ---------------------------------------------------------------------------

/// `n` in decimal, zero-padded to `w` digits.
pub open spec fn padded(n: nat, w: nat) -> Seq<char> {
    zero_pad(decimal(n), w)
}

/// `.uuuuuu` for a non-zero microsecond count, nothing for zero.
pub open spec fn micros_text(us: nat) -> Seq<char> {
    if us > 0 {
        seq!['.'] + padded(us, 6)
    } else {
        Seq::empty()
    }
}

/// `YYYY-MM-DD hh:mm:ss[.uuuuuu]`.
pub open spec fn date_text(y: nat, mo: nat, d: nat, h: nat, mi: nat, s: nat, us: nat) -> Seq<
    char,
> {
    padded(y, 4) + seq!['-'] + padded(mo, 2) + seq!['-'] + padded(d, 2) + seq![' '] + padded(h, 2)
        + seq![':'] + padded(mi, 2) + seq![':'] + padded(s, 2) + micros_text(us)
}

/// `[-]hh:mm:ss[.uuuuuu]` where the hours include the whole days.
pub open spec fn time_text(neg: bool, days: nat, h: nat, mi: nat, s: nat, us: nat) -> Seq<char> {
    (if neg {
        seq!['-']
    } else {
        Seq::empty()
    }) + padded(days * 24 + h, 2) + seq![':'] + padded(mi, 2) + seq![':'] + padded(s, 2)
        + micros_text(us)
}

/// Renders a MySQL `DATE`/`DATETIME` value.
pub fn format_date(y: u16, mo: u8, d: u8, h: u8, mi: u8, s: u8, us: u32) -> (r: String)
    ensures
        r@ == date_text(y as nat, mo as nat, d as nat, h as nat, mi as nat, s as nat, us as nat),
{
    let mut out = String::new();
    push_padded(&mut out, y as u64, 4);
    push_char(&mut out, '-');
    push_padded(&mut out, mo as u64, 2);
    push_char(&mut out, '-');
    push_padded(&mut out, d as u64, 2);
    push_char(&mut out, ' ');
    push_padded(&mut out, h as u64, 2);
    push_char(&mut out, ':');
    push_padded(&mut out, mi as u64, 2);
    push_char(&mut out, ':');
    push_padded(&mut out, s as u64, 2);
    if us > 0 {
        push_char(&mut out, '.');
        push_padded(&mut out, us as u64, 6);
    }
    out
}

/// Renders a MySQL `TIME` value, whose hours may exceed a day.
pub fn format_time(neg: bool, days: u32, h: u8, mi: u8, s: u8, us: u32) -> (r: String)
    requires
        days * 24 + h <= u32::MAX,
    ensures
        r@ == time_text(neg, days as nat, h as nat, mi as nat, s as nat, us as nat),
{
    let hours: u32 = days * 24 + h as u32;
    let mut out = String::new();
    if neg {
        push_char(&mut out, '-');
    }
    push_padded(&mut out, hours as u64, 2);
    push_char(&mut out, ':');
    push_padded(&mut out, mi as u64, 2);
    push_char(&mut out, ':');
    push_padded(&mut out, s as u64, 2);
    if us > 0 {
        push_char(&mut out, '.');
        push_padded(&mut out, us as u64, 6);
    }
    out
}

// ---------------------------------------------------------------------------
// Introspection rows
// ---------------------------------------------------------------------------

/// Splits a `GROUP_CONCAT` result at commas; the empty text gives one empty
/// name.
pub fn split_list(s: &str) -> (r: Vec<String>)
    ensures
        r@.map_values(|p: String| p@) == split_on(s@, ','),
{
    let r = split_char(s, ',');
    assert(r@.map_values(|p: String| p@) =~= split_on(s@, ','));
    r
}

/// Optional text with the empty text counted as absent.
pub open spec fn non_empty(o: Option<Seq<char>>) -> Option<Seq<char>> {
    match o {
        Some(s) => if s.len() > 0 {
            Some(s)
        } else {
            None
        },
        None => None,
    }
}

/// A column record read from a MySQL column row; an empty comment counts as
/// none.
pub open spec fn column_from(r: Row, c: ColumnInfo) -> bool {
    &&& c.name@ == cell_or_empty(lookup(r@, "name"@))
    &&& c.data_type@ == cell_or_empty(lookup(r@, "data_type"@))
    &&& c.nullable == is_truthy(lookup(r@, "nullable"@))
    &&& opt_text(c.default_value) == cell_opt_text(lookup(r@, "default_value"@))
    &&& c.is_primary_key == is_truthy(lookup(r@, "is_primary_key"@))
    &&& opt_text(c.comment) == non_empty(cell_opt_text(lookup(r@, "comment"@)))
}

/// Column records from the column introspection rows.
pub fn columns_from_rows(rows: &Vec<Row>) -> (r: Vec<ColumnInfo>)
    ensures
        r@.len() == rows@.len(),
        forall|i: int| 0 <= i < rows@.len() ==> column_from(#[trigger] rows@[i], r@[i]),
{
    let mut out: Vec<ColumnInfo> = Vec::new();
    let mut i: usize = 0;
    while i < rows.len()
        invariant
            i <= rows@.len(),
            out@.len() == i,
            forall|k: int| 0 <= k < i ==> column_from(#[trigger] rows@[k], out@[k]),
        decreases rows@.len() - i,
    {
        let r = &rows[i];
        let comment = match text_opt(row_get(r, "comment")) {
            Some(c) => {
                if c.as_str().is_empty() {
                    None
                } else {
                    Some(c)
                }
            },
            None => None,
        };
        let c = ColumnInfo {
            name: text(row_get(r, "name")),
            data_type: text(row_get(r, "data_type")),
            nullable: truthy(row_get(r, "nullable")),
            default_value: text_opt(row_get(r, "default_value")),
            is_primary_key: truthy(row_get(r, "is_primary_key")),
            comment,
        };
        out.push(c);
        i = i + 1;
    }
    out
}

/// An index record read from a MySQL index row.
pub open spec fn index_from(r: Row, x: IndexInfo) -> bool {
    &&& x.name@ == cell_or_empty(lookup(r@, "name"@))
    &&& x.columns@.map_values(|s: String| s@) == split_on(
        cell_or_empty(lookup(r@, "columns_str"@)),
        ',',
    )
    &&& x.kind@ == cell_or_empty(lookup(r@, "type"@))
    &&& x.unique == is_truthy(lookup(r@, "is_unique"@))
}

/// Index records from the index introspection rows.
pub fn indexes_from_rows(rows: &Vec<Row>) -> (r: Vec<IndexInfo>)
    ensures
        r@.len() == rows@.len(),
        forall|i: int| 0 <= i < rows@.len() ==> index_from(#[trigger] rows@[i], r@[i]),
{
    let mut out: Vec<IndexInfo> = Vec::new();
    let mut i: usize = 0;
    while i < rows.len()
        invariant
            i <= rows@.len(),
            out@.len() == i,
            forall|k: int| 0 <= k < i ==> index_from(#[trigger] rows@[k], out@[k]),
        decreases rows@.len() - i,
    {
        let r = &rows[i];
        let cols = text(row_get(r, "columns_str"));
        let x = IndexInfo {
            name: text(row_get(r, "name")),
            columns: split_list(cols.as_str()),
            kind: text(row_get(r, "type")),
            unique: truthy(row_get(r, "is_unique")),
        };
        out.push(x);
        i = i + 1;
    }
    out
}

/// The index of the first referential-action row naming constraint `name`.
pub open spec fn action_index(actions: Seq<Row>, name: Seq<char>, from: int) -> Option<int>
    decreases actions.len() - from,
{
    if from < 0 || from >= actions.len() {
        None
    } else if cell_or_empty(lookup(actions[from]@, "name"@)) == name {
        Some(from)
    } else {
        action_index(actions, name, from + 1)
    }
}

/// The rule `key` of the first action row naming the constraint, or
/// `NO ACTION` when there is none.
pub open spec fn action_rule(actions: Seq<Row>, name: Seq<char>, key: Seq<char>) -> Seq<char> {
    match action_index(actions, name, 0) {
        Some(i) => cell_or_empty(lookup(actions[i]@, key)),
        None => "NO ACTION"@,
    }
}

/// A foreign-key record read from a key-usage row, with its rules taken from
/// the action rows.
pub open spec fn foreign_key_from(r: Row, actions: Seq<Row>, f: ForeignKeyInfo) -> bool {
    let name = cell_or_empty(lookup(r@, "name"@));
    &&& f.name@ == name
    &&& f.columns@.map_values(|s: String| s@) == split_on(
        cell_or_empty(lookup(r@, "columns_str"@)),
        ',',
    )
    &&& f.referenced_table@ == cell_or_empty(lookup(r@, "referenced_table"@))
    &&& f.referenced_columns@.map_values(|s: String| s@) == split_on(
        cell_or_empty(lookup(r@, "ref_columns_str"@)),
        ',',
    )
    &&& f.on_delete@ == action_rule(actions, name, "on_delete"@)
    &&& f.on_update@ == action_rule(actions, name, "on_update"@)
}

proof fn lemma_action_index_range(actions: Seq<Row>, name: Seq<char>, from: int)
    ensures
        action_index(actions, name, from) matches Some(i) ==> from <= i < actions.len(),
    decreases actions.len() - from,
{
    if 0 <= from < actions.len() && cell_or_empty(lookup(actions[from]@, "name"@)) != name {
        lemma_action_index_range(actions, name, from + 1);
    }
}

/// The first action row naming the constraint.
fn find_action<'a>(actions: &'a Vec<Row>, name: &str) -> (r: Option<&'a Row>)
    ensures
        match r {
            Some(a) => action_index(actions@, name@, 0) matches Some(i) && actions@[i] == *a,
            None => action_index(actions@, name@, 0) is None,
        },
{
    let mut i: usize = 0;
    while i < actions.len()
        invariant
            i <= actions@.len(),
            action_index(actions@, name@, 0) == action_index(actions@, name@, i as int),
        decreases actions@.len() - i,
    {
        let n = text(row_get(&actions[i], "name"));
        if str_eq(n.as_str(), name) {
            return Some(&actions[i]);
        }
        i = i + 1;
    }
    None
}

/// The rule `key` of an action row, or `NO ACTION`.
fn rule_of(action: Option<&Row>, key: &str) -> (r: String)
    ensures
        r@ == match action {
            Some(a) => cell_or_empty(lookup(a@, key@)),
            None => "NO ACTION"@,
        },
{
    match action {
        Some(a) => text(row_get(a, key)),
        None => String::from_str("NO ACTION"),
    }
}

/// Foreign-key records from the key-usage rows, each with the delete and
/// update rules of the first action row of the same constraint name
/// (`NO ACTION` when none names it).
pub fn foreign_keys_from_rows(fks: &Vec<Row>, actions: &Vec<Row>) -> (r: Vec<ForeignKeyInfo>)
    ensures
        r@.len() == fks@.len(),
        forall|i: int|
            0 <= i < fks@.len() ==> foreign_key_from(#[trigger] fks@[i], actions@, r@[i]),
{
    let mut out: Vec<ForeignKeyInfo> = Vec::new();
    let mut i: usize = 0;
    while i < fks.len()
        invariant
            i <= fks@.len(),
            out@.len() == i,
            forall|k: int| 0 <= k < i ==> foreign_key_from(#[trigger] fks@[k], actions@, out@[k]),
        decreases fks@.len() - i,
    {
        let r = &fks[i];
        let name = text(row_get(r, "name"));
        let action = find_action(actions, name.as_str());
        let cols = text(row_get(r, "columns_str"));
        let refs = text(row_get(r, "ref_columns_str"));
        let f = ForeignKeyInfo {
            columns: split_list(cols.as_str()),
            referenced_table: text(row_get(r, "referenced_table")),
            referenced_columns: split_list(refs.as_str()),
            on_delete: rule_of(action, "on_delete"),
            on_update: rule_of(action, "on_update"),
            name,
        };
        out.push(f);
        i = i + 1;
    }
    out
}

/// The `SHOW CREATE` text of the first row: its non-empty `Create Table`
/// cell, else its non-empty `Create View` cell, else nothing.
pub open spec fn create_text(rows: Seq<Row>) -> Seq<char> {
    if rows.len() == 0 {
        Seq::empty()
    } else {
        match non_empty(cell_opt_text(lookup(rows[0]@, "Create Table"@))) {
            Some(t) => t,
            None => match non_empty(cell_opt_text(lookup(rows[0]@, "Create View"@))) {
                Some(v) => v,
                None => Seq::empty(),
            },
        }
    }
}

/// The DDL from the rows of `SHOW CREATE TABLE`.
pub fn ddl_from_rows(rows: &Vec<Row>) -> (r: String)
    ensures
        r@ == create_text(rows@),
{
    if rows.len() == 0 {
        return String::new();
    }
    let first = &rows[0];
    match text_opt(row_get(first, "Create Table")) {
        Some(t) => {
            if !t.as_str().is_empty() {
                return t;
            }
        },
        None => {},
    }
    match text_opt(row_get(first, "Create View")) {
        Some(v) => {
            if !v.as_str().is_empty() {
                return v;
            }
        },
        None => {},
    }
    String::new()
}

/// `MySQL <v>` from the first row's `v` cell, `MySQL unknown` without one.
pub open spec fn version_text(rows: Seq<Row>) -> Seq<char> {
    "MySQL "@ + if rows.len() == 0 {
        "unknown"@
    } else {
        match cell_opt_text(lookup(rows[0]@, "v"@)) {
            Some(v) => v,
            None => "unknown"@,
        }
    }
}

/// The version text from `SELECT VERSION() as v`.
pub fn version_from_rows(rows: &Vec<Row>) -> (r: String)
    ensures
        r@ == version_text(rows@),
{
    let mut out = String::from_str("MySQL ");
    let v = if rows.len() == 0 {
        String::from_str("unknown")
    } else {
        match text_opt(row_get(&rows[0], "v")) {
            Some(v) => v,
            None => String::from_str("unknown"),
        }
    };
    push_str(&mut out, v.as_str());
    out
}

/// The DDL of a `SHOW CREATE` result is the statement it shows: the first
/// row's `Create Table` text when that is non-empty, otherwise its
/// non-empty `Create View` text, and nothing without rows.
pub proof fn law_ddl_is_the_shown_statement(rows: Seq<Row>, table: String, view: String)
    ensures
        rows.len() == 0 ==> create_text(rows) == Seq::<char>::empty(),
        rows.len() > 0 && lookup(rows[0]@, "Create Table"@) == Some(Json::Str(table))
            && table@.len() > 0 ==> create_text(rows) == table@,
        rows.len() > 0 && lookup(rows[0]@, "Create Table"@) is None && lookup(
            rows[0]@,
            "Create View"@,
        ) == Some(Json::Str(view)) && view@.len() > 0 ==> create_text(rows) == view@,
{
}

} // verus!
