//! The SQLite side of the adapter layer: which statements return rows, and
//! turning the pragma rows into schema records.

use vstd::prelude::*;

use crate::cells::{
    cell_opt_text, cell_or_empty, lookup, opt_json, row_get, sqlite_int, sqlite_int_reading, text,
    text_opt,
};
use crate::json::Row;
use crate::text::{
    all_ws, law_trim_ignores_surrounding_ws,
    ascii_upper, is_ascii_text, law_uppercased_trim_ignores_ascii_case,
    has_prefix, opt_text, push_signed, push_str, signed_decimal, starts_with, str_eq, to_uppercase,
    trim, trimmed, uppercase_of,
};
use crate::types::{ColumnInfo, ForeignKeyInfo, IndexInfo, TableInfo};

verus! {

broadcast use vstd::string::group_string_axioms;

// ---------------------------------------------------------------------------
// Introspection statements
// ---------------------------------------------------------------------------

/// The tables and views of the database, SQLite's own left out.
pub const TABLES_SQL: &'static str = "SELECT name, type FROM sqlite_master
WHERE type IN ('table', 'view') AND name NOT LIKE 'sqlite_%'
ORDER BY name";

/// The stored `CREATE` statement of the object named `?`.
pub const DDL_SQL: &'static str = "SELECT sql FROM sqlite_master WHERE name = ?";

/// The library version.
pub const VERSION_SQL: &'static str = "SELECT sqlite_version() as v";

/// `PRAGMA <pragma>("<name>")`, the name written as it is.
pub open spec fn pragma_text(pragma: Seq<char>, name: Seq<char>) -> Seq<char> {
    "PRAGMA "@ + pragma + "(\""@ + name + "\")"@
}

/// A pragma statement on a named table or index. Quotes in the name are
/// not escaped.
pub fn pragma_sql(pragma: &str, name: &str) -> (r: String)
    ensures
        r@ == pragma_text(pragma@, name@),
{
    let mut out = String::from_str("PRAGMA ");
    push_str(&mut out, pragma);
    push_str(&mut out, "(\"");
    push_str(&mut out, name);
    push_str(&mut out, "\")");
    out
}


// ---------------------------------------------------------------------------
// Statement classification
// ---------------------------------------------------------------------------

/// An uppercased statement that returns rows: one starting with `SELECT`,
/// `PRAGMA` or `WITH`.
pub open spec fn reads_rows(upper: Seq<char>) -> bool {
    ||| has_prefix(upper, "SELECT"@)
    ||| has_prefix(upper, "PRAGMA"@)
    ||| has_prefix(upper, "WITH"@)
}

/// Whether an already trimmed and uppercased statement returns rows.
pub fn is_read_upper(upper: &str) -> (r: bool)
    ensures
        r == reads_rows(upper@),
{
    starts_with(upper, "SELECT") || starts_with(upper, "PRAGMA") || starts_with(upper, "WITH")
}

/// Whether a statement returns rows, judged by the first word of its
/// trimmed, uppercased text.
pub fn is_read(sql: &str) -> (r: bool)
    ensures
        r == reads_rows(uppercase_of(trim(sql@))),
        is_ascii_text(sql@) ==> r == reads_rows(
            trim(sql@).map_values(|c: char| ascii_upper(c)),
        ),
{
    proof {
        if is_ascii_text(sql@) {
            law_uppercased_trim_ignores_ascii_case(sql@, sql@);
        }
    }
    let t = trimmed(sql);
    let upper = to_uppercase(t.as_str());
    is_read_upper(upper.as_str())
}

/// For ASCII statements the classification ignores letter case: two
/// statements that differ only in the case of their letters are both read
/// statements or both not.
pub proof fn law_read_classification_ignores_ascii_case(a: Seq<char>, b: Seq<char>)
    requires
        is_ascii_text(a),
        is_ascii_text(b),
        a.map_values(|c: char| ascii_upper(c)) == b.map_values(|c: char| ascii_upper(c)),
    ensures
        reads_rows(trim(a).map_values(|c: char| ascii_upper(c))) == reads_rows(
            trim(b).map_values(|c: char| ascii_upper(c)),
        ),
{
    law_uppercased_trim_ignores_ascii_case(a, b);
}

/// Whitespace around a statement does not change its classification.
pub proof fn law_read_classification_ignores_surrounding_ws(a: Seq<char>, sql: Seq<char>, b: Seq<char>)
    requires
        all_ws(a),
        all_ws(b),
    ensures
        reads_rows(uppercase_of(trim(a + sql + b))) == reads_rows(uppercase_of(trim(sql))),
{
    law_trim_ignores_surrounding_ws(a, sql, b);
}

// ---------------------------------------------------------------------------
// Tables and columns
// ---------------------------------------------------------------------------

/// Table records from `sqlite_master` rows: name and type, no row count.
pub fn tables_from_rows(rows: &Vec<Row>) -> (r: Vec<TableInfo>)
    ensures
        r@.len() == rows@.len(),
        forall|i: int|
            0 <= i < rows@.len() ==> {
                &&& (#[trigger] r@[i]).name@ == cell_or_empty(lookup(rows@[i]@, "name"@))
                &&& r@[i].kind@ == cell_or_empty(lookup(rows@[i]@, "type"@))
                &&& r@[i].row_count is None
            },
{
    let mut out: Vec<TableInfo> = Vec::new();
    let mut i: usize = 0;
    while i < rows.len()
        invariant
            i <= rows@.len(),
            out@.len() == i,
            forall|k: int|
                0 <= k < i ==> {
                    &&& (#[trigger] out@[k]).name@ == cell_or_empty(lookup(rows@[k]@, "name"@))
                    &&& out@[k].kind@ == cell_or_empty(lookup(rows@[k]@, "type"@))
                    &&& out@[k].row_count is None
                },
        decreases rows@.len() - i,
    {
        let r = &rows[i];
        out.push(
            TableInfo { name: text(row_get(r, "name")), kind: text(row_get(r, "type")), row_count: None },
        );
        i = i + 1;
    }
    out
}

/// A column record read from a `table_info` row: an empty declared type
/// reads as `TEXT`; nullable when `notnull` is 0; a key when `pk` is 1.
pub open spec fn column_from(r: Row, c: ColumnInfo) -> bool {
    let ty = cell_or_empty(lookup(r@, "type"@));
    &&& c.name@ == cell_or_empty(lookup(r@, "name"@))
    &&& c.data_type@ == if ty.len() == 0 {
        "TEXT"@
    } else {
        ty
    }
    &&& c.nullable == (sqlite_int_reading(lookup(r@, "notnull"@)) == Some(0i64))
    &&& opt_text(c.default_value) == cell_opt_text(lookup(r@, "dflt_value"@))
    &&& c.is_primary_key == (sqlite_int_reading(lookup(r@, "pk"@)) == Some(1i64))
    &&& c.comment is None
}

/// `o` holds exactly `v`.
fn is_some_value(o: Option<i64>, v: i64) -> (r: bool)
    ensures
        r == (o == Some(v)),
{
    match o {
        Some(x) => x == v,
        None => false,
    }
}

/// Column records from `PRAGMA table_info` rows.
pub fn columns_from_rows(rows: &Vec<Row>) -> (r: Vec<ColumnInfo>)
    ensures
        r@.len() == rows@.len(),
        forall|i: int| 0 <= i < rows@.len() ==> column_from(#[trigger] rows@[i], r@[i]),
{
    let mut out: Vec<ColumnInfo> = Vec::new();
    let mut i: usize = 0;
    while i < rows.len()
        invariant
            i <= rows@.len(),
            out@.len() == i,
            forall|k: int| 0 <= k < i ==> column_from(#[trigger] rows@[k], out@[k]),
        decreases rows@.len() - i,
    {
        let r = &rows[i];
        let ty = text(row_get(r, "type"));
        let data_type = if ty.as_str().is_empty() {
            String::from_str("TEXT")
        } else {
            ty
        };
        let c = ColumnInfo {
            name: text(row_get(r, "name")),
            data_type,
            nullable: is_some_value(sqlite_int(row_get(r, "notnull")), 0),
            default_value: text_opt(row_get(r, "dflt_value")),
            is_primary_key: is_some_value(sqlite_int(row_get(r, "pk")), 1),
            comment: None,
        };
        out.push(c);
        i = i + 1;
    }
    out
}

/// The index record for one `index_list` row and the `index_info` rows of
/// that index: `PRIMARY` for a key's own index, `BTREE` otherwise; unique
/// when the `unique` flag is 1.
pub open spec fn index_from(entry: Row, info: Seq<Row>, x: IndexInfo) -> bool {
    &&& x.name@ == cell_or_empty(lookup(entry@, "name"@))
    &&& x.columns@.map_values(|s: String| s@) == info.map_values(
        |r: Row| cell_or_empty(lookup(r@, "name"@)),
    )
    &&& x.kind@ == if cell_or_empty(lookup(entry@, "origin"@)) == "pk"@ {
        "PRIMARY"@
    } else {
        "BTREE"@
    }
    &&& x.unique == (sqlite_int_reading(lookup(entry@, "unique"@)) == Some(1i64))
}

/// The record of one index from its `index_list` row and `index_info` rows.
pub fn index_from_rows(entry: &Row, info: &Vec<Row>) -> (r: IndexInfo)
    ensures
        index_from(*entry, info@, r),
{
    let name = text(row_get(entry, "name"));
    let mut columns: Vec<String> = Vec::new();
    let mut i: usize = 0;
    while i < info.len()
        invariant
            i <= info@.len(),
            columns@.len() == i,
            forall|k: int|
                0 <= k < i ==> (#[trigger] columns@[k])@ == cell_or_empty(lookup(info@[k]@, "name"@)),
        decreases info@.len() - i,
    {
        columns.push(text(row_get(&info[i], "name")));
        i = i + 1;
    }
    assert(columns@.map_values(|s: String| s@) =~= info@.map_values(
        |r: Row| cell_or_empty(lookup(r@, "name"@)),
    ));
    let origin = text(row_get(entry, "origin"));
    let kind = if str_eq(origin.as_str(), "pk") {
        String::from_str("PRIMARY")
    } else {
        String::from_str("BTREE")
    };
    IndexInfo { name, columns, kind, unique: is_some_value(sqlite_int(row_get(entry, "unique")), 1) }
}

// ---------------------------------------------------------------------------
// Foreign keys
// ---------------------------------------------------------------------------

/// A foreign key as text: name, local columns, referenced table and
/// columns, and the two rules.
pub struct KeyView {
    pub name: Seq<char>,
    pub columns: Seq<Seq<char>>,
    pub table: Seq<char>,
    pub refs: Seq<Seq<char>>,
    pub on_delete: Seq<char>,
    pub on_update: Seq<char>,
}

/// The text view of a foreign-key record.
pub open spec fn key_view(f: ForeignKeyInfo) -> KeyView {
    KeyView {
        name: f.name@,
        columns: f.columns@.map_values(|s: String| s@),
        table: f.referenced_table@,
        refs: f.referenced_columns@.map_values(|s: String| s@),
        on_delete: f.on_delete@,
        on_update: f.on_update@,
    }
}

/// The constraint id of a `foreign_key_list` row, 0 when unreadable.
pub open spec fn row_id(r: Row) -> i64 {
    match sqlite_int_reading(lookup(r@, "id"@)) {
        Some(i) => i,
        None => 0,
    }
}

/// The position of the first group with id `id`.
pub open spec fn group_of(ids: Seq<i64>, id: i64) -> Option<int>
    decreases ids.len(),
{
    if ids.len() == 0 {
        None
    } else {
        match group_of(ids.drop_last(), id) {
            Some(j) => Some(j),
            None => if ids.last() == id {
                Some(ids.len() - 1)
            } else {
                None
            },
        }
    }
}

/// The groups formed by `rows`: one per constraint id, in order of first
/// appearance, named `fk_<id>`, taking table and rules from the first row of
/// the id and the column pairs from every row of the id, in order.
pub open spec fn key_groups(rows: Seq<Row>) -> (Seq<i64>, Seq<KeyView>)
    decreases rows.len(),
{
    if rows.len() == 0 {
        (Seq::empty(), Seq::empty())
    } else {
        let (ids, groups) = key_groups(rows.drop_last());
        let r = rows.last();
        let id = row_id(r);
        let from = cell_or_empty(lookup(r@, "from"@));
        let to = cell_or_empty(lookup(r@, "to"@));
        match group_of(ids, id) {
            Some(j) => {
                let g = groups[j];
                (
                    ids,
                    groups.update(
                        j,
                        KeyView { columns: g.columns.push(from), refs: g.refs.push(to), ..g },
                    ),
                )
            },
            None => (
                ids.push(id),
                groups.push(
                    KeyView {
                        name: "fk_"@ + signed_decimal(id as int),
                        columns: seq![from],
                        table: cell_or_empty(lookup(r@, "table"@)),
                        refs: seq![to],
                        on_delete: cell_or_empty(lookup(r@, "on_delete"@)),
                        on_update: cell_or_empty(lookup(r@, "on_update"@)),
                    },
                ),
            ),
        }
    }
}

proof fn lemma_key_groups_len(rows: Seq<Row>)
    ensures
        key_groups(rows).0.len() == key_groups(rows).1.len(),
    decreases rows.len(),
{
    if rows.len() > 0 {
        lemma_key_groups_len(rows.drop_last());
        let (ids, _) = key_groups(rows.drop_last());
        lemma_group_of_range(ids, row_id(rows.last()));
    }
}

proof fn lemma_group_of_range(ids: Seq<i64>, id: i64)
    ensures
        group_of(ids, id) matches Some(j) ==> 0 <= j < ids.len() && ids[j] == id,
        group_of(ids, id) is None ==> forall|k: int| 0 <= k < ids.len() ==> ids[k] != id,
    decreases ids.len(),
{
    if ids.len() > 0 {
        lemma_group_of_range(ids.drop_last(), id);
        if group_of(ids, id) is None {
            assert forall|k: int| 0 <= k < ids.len() implies ids[k] != id by {
                if k < ids.len() - 1 {
                    assert(ids.drop_last()[k] == ids[k]);
                }
            }
        }
    }
}

/// The first position of `id` in `ids`.
fn find_id(ids: &Vec<i64>, id: i64) -> (r: Option<usize>)
    ensures
        match r {
            Some(j) => group_of(ids@, id) == Some(j as int),
            None => group_of(ids@, id) is None,
        },
{
    let mut j: usize = 0;
    while j < ids.len()
        invariant
            j <= ids@.len(),
            forall|k: int| 0 <= k < j ==> ids@[k] != id,
        decreases ids@.len() - j,
    {
        if ids[j] == id {
            proof {
                lemma_first_match(ids@, id, j as int);
            }
            return Some(j);
        }
        j = j + 1;
    }
    proof {
        lemma_no_match(ids@, id);
    }
    None
}

proof fn lemma_first_match(ids: Seq<i64>, id: i64, j: int)
    requires
        0 <= j < ids.len(),
        ids[j] == id,
        forall|k: int| 0 <= k < j ==> ids[k] != id,
    ensures
        group_of(ids, id) == Some(j),
    decreases ids.len(),
{
    if j < ids.len() - 1 {
        lemma_first_match(ids.drop_last(), id, j);
    } else {
        lemma_no_match(ids.drop_last(), id);
    }
}

proof fn lemma_no_match(ids: Seq<i64>, id: i64)
    requires
        forall|k: int| 0 <= k < ids.len() ==> ids[k] != id,
    ensures
        group_of(ids, id) is None,
    decreases ids.len(),
{
    if ids.len() > 0 {
        lemma_no_match(ids.drop_last(), id);
    }
}

/// Foreign keys from `PRAGMA foreign_key_list` rows: the rows grouped by
/// constraint id in order of first appearance, one key per id named
/// `fk_<id>`.
pub fn foreign_keys_from_rows(rows: &Vec<Row>) -> (r: Vec<ForeignKeyInfo>)
    ensures
        r@.map_values(|f: ForeignKeyInfo| key_view(f)) == key_groups(rows@).1,
{
    let mut ids: Vec<i64> = Vec::new();
    let mut groups: Vec<ForeignKeyInfo> = Vec::new();
    let mut i: usize = 0;
    while i < rows.len()
        invariant
            i <= rows@.len(),
            ids@ == key_groups(rows@.take(i as int)).0,
            groups@.map_values(|f: ForeignKeyInfo| key_view(f)) == key_groups(
                rows@.take(i as int),
            ).1,
            ids@.len() == groups@.len(),
        decreases rows@.len() - i,
    {
        let r = &rows[i];
        proof {
            let t = rows@.take(i as int + 1);
            assert(t.drop_last() =~= rows@.take(i as int));
            assert(t.last() == rows@[i as int]);
            lemma_key_groups_len(rows@.take(i as int));
        }
        let id = match sqlite_int(row_get(r, "id")) {
            Some(v) => v,
            None => 0,
        };
        let from = text(row_get(r, "from"));
        let to = text(row_get(r, "to"));
        let ghost before = groups@.map_values(|f: ForeignKeyInfo| key_view(f));
        match find_id(&ids, id) {
            Some(j) => {
                proof {
                    lemma_group_of_range(ids@, id);
                }
                let mut g = groups.remove(j);
                let ghost old_g = g;
                g.columns.push(from);
                g.referenced_columns.push(to);
                proof {
                    assert(g.columns@.map_values(|s: String| s@) =~= old_g.columns@.map_values(
                        |s: String| s@,
                    ).push(from@));
                    assert(g.referenced_columns@.map_values(|s: String| s@)
                        =~= old_g.referenced_columns@.map_values(|s: String| s@).push(to@));
                }
                groups.insert(j, g);
                assert(groups@.map_values(|f: ForeignKeyInfo| key_view(f)) =~= before.update(
                    j as int,
                    KeyView {
                        columns: before[j as int].columns.push(from@),
                        refs: before[j as int].refs.push(to@),
                        ..before[j as int]
                    },
                ));
            },
            None => {
                let mut name = String::from_str("fk_");
                push_signed(&mut name, id);
                let mut columns: Vec<String> = Vec::new();
                columns.push(from);
                let mut refs: Vec<String> = Vec::new();
                refs.push(to);
                let f = ForeignKeyInfo {
                    name,
                    columns,
                    referenced_table: text(row_get(r, "table")),
                    referenced_columns: refs,
                    on_delete: text(row_get(r, "on_delete")),
                    on_update: text(row_get(r, "on_update")),
                };
                proof {
                    assert(f.columns@.map_values(|s: String| s@) =~= seq![from@]);
                    assert(f.referenced_columns@.map_values(|s: String| s@) =~= seq![to@]);
                }
                groups.push(f);
                ids.push(id);
                assert(groups@.map_values(|f: ForeignKeyInfo| key_view(f)) =~= before.push(
                    key_view(f),
                ));
            },
        }
        i = i + 1;
    }
    assert(rows@.take(rows@.len() as int) =~= rows@);
    groups
}

// ---------------------------------------------------------------------------
// DDL, version, databases
// ---------------------------------------------------------------------------

/// The `sql` cell of the first row, or nothing.
pub open spec fn ddl_text(rows: Seq<Row>) -> Seq<char> {
    if rows.len() == 0 {
        Seq::empty()
    } else {
        match cell_opt_text(lookup(rows[0]@, "sql"@)) {
            Some(s) => s,
            None => Seq::empty(),
        }
    }
}

/// The stored `CREATE` statement from `sqlite_master` rows; empty for a
/// missing table.
pub fn ddl_from_rows(rows: &Vec<Row>) -> (r: String)
    ensures
        r@ == ddl_text(rows@),
{
    if rows.len() == 0 {
        return String::new();
    }
    match text_opt(row_get(&rows[0], "sql")) {
        Some(s) => s,
        None => String::new(),
    }
}

/// `SQLite <v>` from the first row's `v` cell, `SQLite unknown` without one.
pub open spec fn version_text(rows: Seq<Row>) -> Seq<char> {
    "SQLite "@ + if rows.len() == 0 {
        "unknown"@
    } else {
        match cell_opt_text(lookup(rows[0]@, "v"@)) {
            Some(v) => v,
            None => "unknown"@,
        }
    }
}

/// The version text from `SELECT sqlite_version() as v`.
pub fn version_from_rows(rows: &Vec<Row>) -> (r: String)
    ensures
        r@ == version_text(rows@),
{
    let mut out = String::from_str("SQLite ");
    let v = if rows.len() == 0 {
        String::from_str("unknown")
    } else {
        match text_opt(row_get(&rows[0], "v")) {
            Some(v) => v,
            None => String::from_str("unknown"),
        }
    };
    push_str(&mut out, v.as_str());
    out
}

/// The final component of a path as `Path::file_name` gives it (lossily
/// decoded), or `None` when the path has none.
pub uninterp spec fn file_name_of(path: Seq<char>) -> Option<Seq<char>>;

/// `Path::file_name` of `path`, decoded with `to_string_lossy`. The contract
/// names the result and states nothing more of it. Which characters
/// separate path components is fixed by the platform the library is built
/// for (`/` on Unix, also `\\` on Windows), so the name is a function of
/// the path within one build.
#[verifier::external_body]
fn file_name(path: &str) -> (r: Option<String>)
    ensures
        opt_text(r) == file_name_of(path@),
{
    match std::path::Path::new(path).file_name() {
        Some(name) => Some(name.to_string_lossy().into_owned()),
        None => None,
    }
}

/// The one database a SQLite connection lists: the file name of its path,
/// or `main` when that is missing or empty.
pub open spec fn database_name_of(file_name: Option<Seq<char>>) -> Seq<char> {
    match file_name {
        Some(n) => if n.len() > 0 {
            n
        } else {
            "main"@
        },
        None => "main"@,
    }
}

/// The database name from a path's file name, `main` without one.
pub fn database_name_from(file_name: Option<String>) -> (r: String)
    ensures
        r@ == database_name_of(opt_text(file_name)),
{
    match file_name {
        Some(n) => {
            if n.as_str().is_empty() {
                String::from_str("main")
            } else {
                n
            }
        },
        None => String::from_str("main"),
    }
}

/// The databases of a SQLite connection: just the file's own name.
pub fn databases_of(path: &str) -> (r: Vec<String>)
    ensures
        r@.len() == 1,
        r@[0]@ == database_name_of(file_name_of(path@)),
{
    let mut out: Vec<String> = Vec::new();
    out.push(database_name_from(file_name(path)));
    out
}

} // verus!
