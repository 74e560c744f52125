//! The SQL text of the grid's operations: paging with filters and sort, row
//! inserts, updates and deletes, exports and column profiling.

use vstd::prelude::*;

use crate::filters::{build_filter_clause, quote_ident, quoted_ident, where_clause};
use crate::json::{Json, Row};
use crate::text::{
    ascii_lower, contains, contains_exec, decimal, is_ascii_text, join, join_strings, opt_str,
    push_decimal, push_str, str_eq,
};
use crate::types::{FilterCondition, RowsRequest, SortSpec};
use crate::values::{literal, literal_bool_kw, literal_kw_text, literal_text, where_eq, where_eq_text};

verus! {

broadcast use vstd::string::group_string_axioms;

// ---------------------------------------------------------------------------
// Paging
// ---------------------------------------------------------------------------

/// The filter part of a page request: the `WHERE` clause of its filters
/// (logic `and` when none is given), or nothing without filters.
pub open spec fn request_where(filters: Option<Vec<FilterCondition>>, logic: Option<String>) -> Seq<
    char,
> {
    match filters {
        Some(fs) => if fs@.len() > 0 {
            where_clause(
                fs@,
                match logic {
                    Some(l) => l@,
                    None => "and"@,
                },
            )
        } else {
            Seq::empty()
        },
        None => Seq::empty(),
    }
}

/// `ORDER BY "col" <direction>` with the direction written as given, or
/// nothing without a sort.
pub open spec fn request_order(sort: Option<SortSpec>) -> Seq<char> {
    match sort {
        Some(s) => "ORDER BY "@ + quoted_ident(s.column@) + " "@ + s.direction@,
        None => Seq::empty(),
    }
}

/// `SELECT COUNT(*) as total FROM "t" <where>`.
pub open spec fn count_query(req: RowsRequest) -> Seq<char> {
    "SELECT COUNT(*) as total FROM "@ + quoted_ident(req.table@) + " "@ + request_where(
        req.filters,
        req.filter_logic,
    )
}

/// `SELECT * FROM "t" <where> <order> LIMIT <size> OFFSET <(page-1)*size>`.
pub open spec fn page_query(req: RowsRequest) -> Seq<char> {
    "SELECT * FROM "@ + quoted_ident(req.table@) + " "@ + request_where(
        req.filters,
        req.filter_logic,
    ) + " "@ + request_order(req.sort) + " LIMIT "@ + decimal(req.page_size as nat)
        + " OFFSET "@ + decimal(((req.page - 1) * req.page_size) as nat)
}

/// The page request the grid sends: a page size of at least one row, and
/// the filter conditions with their logic only when there are conditions.
pub fn grid_request(
    table: String,
    page: u64,
    page_size: u64,
    sort: Option<SortSpec>,
    conditions: Vec<FilterCondition>,
    logic: String,
) -> (r: RowsRequest)
    ensures
        r.table == table,
        r.page == page,
        r.page_size == if page_size == 0 {
            1
        } else {
            page_size
        },
        r.sort == sort,
        conditions@.len() > 0 ==> r.filters == Some(conditions) && r.filter_logic == Some(logic),
        conditions@.len() == 0 ==> r.filters is None && r.filter_logic is None,
{
    let size = if page_size == 0 {
        1
    } else {
        page_size
    };
    if conditions.len() > 0 {
        RowsRequest {
            table,
            page,
            page_size: size,
            sort,
            filters: Some(conditions),
            filter_logic: Some(logic),
        }
    } else {
        RowsRequest { table, page, page_size: size, sort, filters: None, filter_logic: None }
    }
}

/// The two statements of a grid page: the filtered row count and the page
/// itself. Filter values are always quoted as strings and the sort
/// direction is written as given.
pub fn rows_queries(req: &RowsRequest) -> (r: (String, String))
    requires
        req.page >= 1,
        (req.page - 1) * req.page_size <= u64::MAX,
    ensures
        r.0@ == count_query(*req),
        r.1@ == page_query(*req),
{
    let where_part = match &req.filters {
        Some(fs) => {
            if fs.len() > 0 {
                match &req.filter_logic {
                    Some(l) => build_filter_clause(fs.as_slice(), l.as_str()),
                    None => build_filter_clause(fs.as_slice(), "and"),
                }
            } else {
                String::new()
            }
        },
        None => String::new(),
    };
    let order_part = match &req.sort {
        Some(s) => {
            let mut o = String::from_str("ORDER BY ");
            let q = quote_ident(s.column.as_str());
            push_str(&mut o, q.as_str());
            push_str(&mut o, " ");
            push_str(&mut o, s.direction.as_str());
            o
        },
        None => String::new(),
    };
    let offset = (req.page - 1) * req.page_size;
    let table = quote_ident(req.table.as_str());
    let mut count = String::from_str("SELECT COUNT(*) as total FROM ");
    push_str(&mut count, table.as_str());
    push_str(&mut count, " ");
    push_str(&mut count, where_part.as_str());
    let mut page = String::from_str("SELECT * FROM ");
    push_str(&mut page, table.as_str());
    push_str(&mut page, " ");
    push_str(&mut page, where_part.as_str());
    push_str(&mut page, " ");
    push_str(&mut page, order_part.as_str());
    push_str(&mut page, " LIMIT ");
    push_decimal(&mut page, req.page_size);
    push_str(&mut page, " OFFSET ");
    push_decimal(&mut page, offset);
    (count, page)
}

// ---------------------------------------------------------------------------
// Row edits
// ---------------------------------------------------------------------------

/// `"key" = <literal>` for one member.
pub open spec fn assignment(m: (String, Json)) -> Seq<char> {
    quoted_ident(m.0@) + " = "@ + literal_text(m.1)
}

/// The key condition of one member.
pub open spec fn key_match(m: (String, Json)) -> Seq<char> {
    where_eq_text(m.0@, m.1)
}

/// The quoted names of a row's members, comma-separated.
pub open spec fn member_names(row: Row) -> Seq<char> {
    join(row@.map_values(|m: (String, Json)| quoted_ident(m.0@)), ", "@)
}

/// The literals of a row's values, comma-separated; booleans as keywords
/// when `kw` holds.
pub open spec fn member_values(row: Row, kw: bool) -> Seq<char> {
    join(
        row@.map_values(
            |m: (String, Json)|
                if kw {
                    literal_kw_text(m.1)
                } else {
                    literal_text(m.1)
                },
        ),
        ", "@,
    )
}

/// The insert of a row: `DEFAULT VALUES` for an empty row.
pub open spec fn insert_text(table: Seq<char>, row: Row) -> Seq<char> {
    if row@.len() == 0 {
        "INSERT INTO "@ + quoted_ident(table) + " DEFAULT VALUES"@
    } else {
        "INSERT INTO "@ + quoted_ident(table) + " ("@ + member_names(row) + ") VALUES ("@
            + member_values(row, false) + ")"@
    }
}

/// `UPDATE "t" SET <assignments> WHERE <key conditions joined with AND>`.
pub open spec fn update_text(table: Seq<char>, key: Row, changes: Row) -> Seq<char> {
    "UPDATE "@ + quoted_ident(table) + " SET "@ + join(
        changes@.map_values(|m: (String, Json)| assignment(m)),
        ", "@,
    ) + " WHERE "@ + join(key@.map_values(|m: (String, Json)| key_match(m)), " AND "@)
}

/// `DELETE FROM "t" WHERE <key conditions joined with AND>`.
pub open spec fn delete_text(table: Seq<char>, key: Row) -> Seq<char> {
    "DELETE FROM "@ + quoted_ident(table) + " WHERE "@ + join(
        key@.map_values(|m: (String, Json)| key_match(m)),
        " AND "@,
    )
}

/// The generated row's insert, booleans as keywords; nothing for an empty
/// row.
pub open spec fn mock_insert_text(quoted_table: Seq<char>, row: Row) -> Option<Seq<char>> {
    if row@.len() == 0 {
        None
    } else {
        Some(
            "INSERT INTO "@ + quoted_table + " ("@ + member_names(row) + ") VALUES ("@
                + member_values(row, true) + ")"@,
        )
    }
}

/// The quoted member names of a row.
fn names_exec(row: &Row) -> (r: String)
    ensures
        r@ == member_names(*row),
{
    let mut parts: Vec<String> = Vec::new();
    let mut i: usize = 0;
    while i < row.len()
        invariant
            i <= row@.len(),
            parts@.len() == i,
            forall|k: int| 0 <= k < i ==> (#[trigger] parts@[k])@ == quoted_ident(row@[k].0@),
        decreases row@.len() - i,
    {
        parts.push(quote_ident(row[i].0.as_str()));
        i = i + 1;
    }
    assert(parts@.map_values(|s: String| s@) =~= row@.map_values(
        |m: (String, Json)| quoted_ident(m.0@),
    ));
    join_strings(&parts, ", ")
}

/// The value literals of a row.
fn values_exec(row: &Row, kw: bool) -> (r: String)
    ensures
        r@ == member_values(*row, kw),
{
    let mut parts: Vec<String> = Vec::new();
    let mut i: usize = 0;
    while i < row.len()
        invariant
            i <= row@.len(),
            parts@.len() == i,
            forall|k: int|
                0 <= k < i ==> (#[trigger] parts@[k])@ == if kw {
                    literal_kw_text(row@[k].1)
                } else {
                    literal_text(row@[k].1)
                },
        decreases row@.len() - i,
    {
        if kw {
            parts.push(literal_bool_kw(&row[i].1));
        } else {
            parts.push(literal(&row[i].1));
        }
        i = i + 1;
    }
    assert(parts@.map_values(|s: String| s@) =~= row@.map_values(
        |m: (String, Json)|
            if kw {
                literal_kw_text(m.1)
            } else {
                literal_text(m.1)
            },
    ));
    join_strings(&parts, ", ")
}

/// The assignments of an update.
fn assignments_exec(row: &Row) -> (r: String)
    ensures
        r@ == join(row@.map_values(|m: (String, Json)| assignment(m)), ", "@),
{
    let mut parts: Vec<String> = Vec::new();
    let mut i: usize = 0;
    while i < row.len()
        invariant
            i <= row@.len(),
            parts@.len() == i,
            forall|k: int| 0 <= k < i ==> (#[trigger] parts@[k])@ == assignment(row@[k]),
        decreases row@.len() - i,
    {
        let mut a = quote_ident(row[i].0.as_str());
        push_str(&mut a, " = ");
        let lit = literal(&row[i].1);
        push_str(&mut a, lit.as_str());
        parts.push(a);
        i = i + 1;
    }
    assert(parts@.map_values(|s: String| s@) =~= row@.map_values(
        |m: (String, Json)| assignment(m),
    ));
    join_strings(&parts, ", ")
}

/// The key conditions of an update or delete, joined with `AND`.
fn key_conditions(row: &Row) -> (r: String)
    ensures
        r@ == join(row@.map_values(|m: (String, Json)| key_match(m)), " AND "@),
{
    let mut parts: Vec<String> = Vec::new();
    let mut i: usize = 0;
    while i < row.len()
        invariant
            i <= row@.len(),
            parts@.len() == i,
            forall|k: int| 0 <= k < i ==> (#[trigger] parts@[k])@ == key_match(row@[k]),
        decreases row@.len() - i,
    {
        parts.push(where_eq(row[i].0.as_str(), &row[i].1));
        i = i + 1;
    }
    assert(parts@.map_values(|s: String| s@) =~= row@.map_values(
        |m: (String, Json)| key_match(m),
    ));
    join_strings(&parts, " AND ")
}

/// The insert of one row: its members as columns and literals in order, or
/// `DEFAULT VALUES` for an empty row.
pub fn insert_sql(table: &str, row: &Row) -> (r: String)
    ensures
        r@ == insert_text(table@, *row),
{
    let t = quote_ident(table);
    let mut out = String::from_str("INSERT INTO ");
    push_str(&mut out, t.as_str());
    if row.len() == 0 {
        push_str(&mut out, " DEFAULT VALUES");
        return out;
    }
    let names = names_exec(row);
    let vals = values_exec(row, false);
    push_str(&mut out, " (");
    push_str(&mut out, names.as_str());
    push_str(&mut out, ") VALUES (");
    push_str(&mut out, vals.as_str());
    push_str(&mut out, ")");
    out
}

/// The update of the row matching `key`, setting `changes`.
pub fn update_sql(table: &str, key: &Row, changes: &Row) -> (r: String)
    ensures
        r@ == update_text(table@, *key, *changes),
{
    let t = quote_ident(table);
    let set = assignments_exec(changes);
    let cond = key_conditions(key);
    let mut out = String::from_str("UPDATE ");
    push_str(&mut out, t.as_str());
    push_str(&mut out, " SET ");
    push_str(&mut out, set.as_str());
    push_str(&mut out, " WHERE ");
    push_str(&mut out, cond.as_str());
    out
}

/// The delete of the row matching `key`.
pub fn delete_sql(table: &str, key: &Row) -> (r: String)
    ensures
        r@ == delete_text(table@, *key),
{
    let t = quote_ident(table);
    let cond = key_conditions(key);
    let mut out = String::from_str("DELETE FROM ");
    push_str(&mut out, t.as_str());
    push_str(&mut out, " WHERE ");
    push_str(&mut out, cond.as_str());
    out
}

/// The insert of one generated row, booleans as `TRUE`/`FALSE`; `None` for
/// an empty row, which is skipped.
pub fn mock_insert_sql(quoted_table: &str, row: &Row) -> (r: Option<String>)
    ensures
        match r {
            Some(s) => mock_insert_text(quoted_table@, *row) == Some(s@),
            None => mock_insert_text(quoted_table@, *row) is None,
        },
{
    if row.len() == 0 {
        return None;
    }
    let names = names_exec(row);
    let vals = values_exec(row, true);
    let mut out = String::from_str("INSERT INTO ");
    push_str(&mut out, quoted_table);
    push_str(&mut out, " (");
    push_str(&mut out, names.as_str());
    push_str(&mut out, ") VALUES (");
    push_str(&mut out, vals.as_str());
    push_str(&mut out, ")");
    Some(out)
}

// ---------------------------------------------------------------------------
// Exports and profiling
// ---------------------------------------------------------------------------

/// What an in-memory export runs: the given SQL when non-empty, else the
/// whole table when named, else the refusal `No table or SQL provided for
/// export`.
pub open spec fn export_query_text(table: Option<Seq<char>>, sql: Option<Seq<char>>) -> Result<
    Seq<char>,
    Seq<char>,
> {
    match sql {
        Some(s) if s.len() > 0 => Ok(s),
        _ => match table {
            Some(t) if t.len() > 0 => Ok(table_query_text(t)),
            _ => Err("No table or SQL provided for export"@),
        },
    }
}

/// `SELECT * FROM "t"`.
pub open spec fn table_query_text(table: Seq<char>) -> Seq<char> {
    "SELECT * FROM "@ + quoted_ident(table)
}

/// The statement reading a whole table.
pub fn table_query(table: &str) -> (r: String)
    ensures
        r@ == table_query_text(table@),
{
    let t = quote_ident(table);
    let mut out = String::from_str("SELECT * FROM ");
    push_str(&mut out, t.as_str());
    out
}

/// The statement an in-memory export runs, or why there is none.
pub fn export_query(table: Option<&str>, sql: Option<&str>) -> (r: Result<String, String>)
    ensures
        match r {
            Ok(s) => export_query_text(opt_str(table), opt_str(sql)) == Ok::<Seq<char>, Seq<char>>(
                s@,
            ),
            Err(e) => export_query_text(opt_str(table), opt_str(sql)) == Err::<
                Seq<char>,
                Seq<char>,
            >(e@),
        },
{
    match sql {
        Some(s) => {
            if !s.is_empty() {
                return Ok(String::from_str(s));
            }
        },
        None => {},
    }
    match table {
        Some(t) => {
            if !t.is_empty() {
                return Ok(table_query(t));
            }
        },
        None => {},
    }
    Err(String::from_str("No table or SQL provided for export"))
}

/// The statements of a column profile.
pub struct ProfileQueries {
    /// Null count, distinct count, minimum and maximum (as text).
    pub stats: String,
    /// The average, as text.
    pub average: String,
    /// The five most frequent non-null values with their counts.
    pub top: String,
}

/// `SELECT COUNT(*) as total FROM <t>`.
pub open spec fn total_query_text(quoted_table: Seq<char>) -> Seq<char> {
    "SELECT COUNT(*) as total FROM "@ + quoted_table
}

/// The row count of a table.
pub fn total_query(quoted_table: &str) -> (r: String)
    ensures
        r@ == total_query_text(quoted_table@),
{
    let mut out = String::from_str("SELECT COUNT(*) as total FROM ");
    push_str(&mut out, quoted_table);
    out
}

/// The statistics statement of column `c` (already quoted) of table `t`.
pub open spec fn stats_query_text(c: Seq<char>, t: Seq<char>) -> Seq<char> {
    "SELECT COUNT(*) - COUNT("@ + c + ") as null_count, COUNT(DISTINCT "@ + c
        + ") as distinct_count, MIN("@ + c + "::text) as min_val, MAX("@ + c
        + "::text) as max_val FROM "@ + t
}

/// The average statement of column `c` of table `t`.
pub open spec fn average_query_text(c: Seq<char>, t: Seq<char>) -> Seq<char> {
    "SELECT AVG("@ + c + "::numeric)::text as avg_val FROM "@ + t
}

/// The most-frequent-values statement of column `c` of table `t`.
pub open spec fn top_query_text(c: Seq<char>, t: Seq<char>) -> Seq<char> {
    "SELECT "@ + c + "::text as val, COUNT(*) as cnt FROM "@ + t + " WHERE "@ + c
        + " IS NOT NULL GROUP BY "@ + c + " ORDER BY cnt DESC LIMIT 5"@
}

/// The three statements profiling column `column` of the quoted table.
pub fn profile_queries(column: &str, quoted_table: &str) -> (r: ProfileQueries)
    ensures
        r.stats@ == stats_query_text(quoted_ident(column@), quoted_table@),
        r.average@ == average_query_text(quoted_ident(column@), quoted_table@),
        r.top@ == top_query_text(quoted_ident(column@), quoted_table@),
{
    let c = quote_ident(column);
    let c = c.as_str();
    let mut stats = String::from_str("SELECT COUNT(*) - COUNT(");
    push_str(&mut stats, c);
    push_str(&mut stats, ") as null_count, COUNT(DISTINCT ");
    push_str(&mut stats, c);
    push_str(&mut stats, ") as distinct_count, MIN(");
    push_str(&mut stats, c);
    push_str(&mut stats, "::text) as min_val, MAX(");
    push_str(&mut stats, c);
    push_str(&mut stats, "::text) as max_val FROM ");
    push_str(&mut stats, quoted_table);
    let mut average = String::from_str("SELECT AVG(");
    push_str(&mut average, c);
    push_str(&mut average, "::numeric)::text as avg_val FROM ");
    push_str(&mut average, quoted_table);
    let mut top = String::from_str("SELECT ");
    push_str(&mut top, c);
    push_str(&mut top, "::text as val, COUNT(*) as cnt FROM ");
    push_str(&mut top, quoted_table);
    push_str(&mut top, " WHERE ");
    push_str(&mut top, c);
    push_str(&mut top, " IS NOT NULL GROUP BY ");
    push_str(&mut top, c);
    push_str(&mut top, " ORDER BY cnt DESC LIMIT 5");
    ProfileQueries { stats, average, top }
}

/// The text `str::to_lowercase` returns for `s`.
pub uninterp spec fn lowercase_of(s: Seq<char>) -> Seq<char>;

/// `str::to_lowercase`: the Unicode lowercase mapping of `s`, under which
/// the ASCII capitals map to their ASCII small letters and the other ASCII
/// characters stay. The contract names the result and states that much of
/// an ASCII text; of other text it states nothing.
#[verifier::external_body]
fn to_lowercase(s: &str) -> (r: String)
    ensures
        r@ == lowercase_of(s@),
        is_ascii_text(s@) ==> r@ == s@.map_values(|c: char| ascii_lower(c)),
{
    s.to_lowercase()
}

/// A lowercased type name that denotes a number: it contains `int`,
/// `float`, `double`, `decimal`, `numeric`, `real`, `money` or `serial`.
pub open spec fn numeric_name(lower: Seq<char>) -> bool {
    ||| contains(lower, "int"@)
    ||| contains(lower, "float"@)
    ||| contains(lower, "double"@)
    ||| contains(lower, "decimal"@)
    ||| contains(lower, "numeric"@)
    ||| contains(lower, "real"@)
    ||| contains(lower, "money"@)
    ||| contains(lower, "serial"@)
}

/// Whether an already lowercased type name denotes a number.
pub fn is_numeric_lower(lower: &str) -> (r: bool)
    ensures
        r == numeric_name(lower@),
{
    contains_exec(lower, "int") || contains_exec(lower, "float") || contains_exec(lower, "double")
        || contains_exec(lower, "decimal") || contains_exec(lower, "numeric") || contains_exec(
        lower,
        "real",
    ) || contains_exec(lower, "money") || contains_exec(lower, "serial")
}

/// Whether a column type is numeric (its lowercased name contains one of
/// the numeric type words), which decides whether a profile has an average.
pub fn is_numeric_type(data_type: &str) -> (r: bool)
    ensures
        r == numeric_name(lowercase_of(data_type@)),
        is_ascii_text(data_type@) ==> r == numeric_name(
            data_type@.map_values(|c: char| ascii_lower(c)),
        ),
{
    let lower = to_lowercase(data_type);
    is_numeric_lower(lower.as_str())
}

/// The condition of a `DELETE` is the conjunction of its key columns'
/// conditions: a one-column key gives `DELETE FROM "t" WHERE <condition>`,
/// and each further key column adds ` AND <its condition>`, so a row is
/// deleted only when every key column matches.
pub proof fn law_delete_matches_every_key_column(
    table: Seq<char>,
    key: Row,
    longer: Row,
    m: (String, Json),
)
    requires
        longer@ == key@.push(m),
    ensures
        key@.len() == 0 ==> delete_text(table, longer) == "DELETE FROM "@ + quoted_ident(table)
            + " WHERE "@ + where_eq_text(m.0@, m.1),
        key@.len() > 0 ==> delete_text(table, longer) == delete_text(table, key) + " AND "@
            + where_eq_text(m.0@, m.1),
{
    let f = |x: (String, Json)| key_match(x);
    assert(longer@.map_values(f) =~= key@.map_values(f).push(key_match(m)));
    let ks = key@.map_values(f);
    let ls = longer@.map_values(f);
    if key@.len() == 0 {
        assert(ls.len() == 1);
    } else {
        assert(ls.drop_last() =~= ks);
    }
}

/// An `UPDATE` and a `DELETE` of the same key select the same rows: both
/// end in ` WHERE ` and the same condition.
pub proof fn law_update_and_delete_share_the_key_condition(table: Seq<char>, key: Row, changes: Row)
    ensures
        ({
            let d = delete_text(table, key);
            let u = update_text(table, key, changes);
            let w = d.skip(("DELETE FROM "@ + quoted_ident(table)).len() as int);
            &&& d == "DELETE FROM "@ + quoted_ident(table) + w
            &&& u.skip(u.len() - w.len()) == w
            &&& u.len() >= w.len()
        }),
{
    let d = delete_text(table, key);
    let u = update_text(table, key, changes);
    let p = "DELETE FROM "@ + quoted_ident(table);
    let w = d.skip(p.len() as int);
    assert(d =~= p + w);
    assert(u.skip(u.len() - w.len()) =~= w);
}

} // verus!
