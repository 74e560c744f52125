//! Exporting a result: CSV text with its quoting rules, and the block of
//! `INSERT` statements of an SQL export.

use vstd::prelude::*;

use crate::cells::{cell_string, lookup, row_get, stringify_cell};
use crate::filters::{quote_ident, quoted_ident};
use crate::json::{pretty_rows, pretty_rows_text, Json, Row};
use crate::text::{
    law_undouble_reverses_doubling, occurs_at, undouble,
    contains, contains_exec, double_quotes, join, join_strings, opt_str, push_char, push_doubled,
    push_str, str_eq,
};
use crate::values::{literal, literal_bool_kw, literal_kw_text, literal_text};

verus! {

broadcast use vstd::string::group_string_axioms;

// ---------------------------------------------------------------------------
// CSV
// ---------------------------------------------------------------------------

/// A CSV field: quoted, with inner double quotes doubled, when it holds the
/// delimiter, a double quote or a line break; as it is otherwise.
pub open spec fn csv_field_text(s: Seq<char>, delim: Seq<char>) -> Seq<char> {
    if contains(s, delim) || contains(s, seq!['"']) || contains(s, seq!['\n']) {
        seq!['"'] + double_quotes(s, '"') + seq!['"']
    } else {
        s
    }
}

/// The reading of a CSV field: a field that starts with a double quote is
/// unwrapped and its doubled quotes are written once; any other field is
/// taken as it is.
pub open spec fn csv_unquote(t: Seq<char>) -> Seq<char> {
    if t.len() >= 2 && t[0] == '"' {
        undouble(t.subrange(1, t.len() - 1), '"')
    } else {
        t
    }
}

/// A CSV field reads back as the text it was made from.
pub proof fn law_csv_field_reads_back(s: Seq<char>, delim: Seq<char>)
    ensures
        csv_unquote(csv_field_text(s, delim)) == s,
{
    let f = csv_field_text(s, delim);
    if contains(s, delim) || contains(s, seq!['"']) || contains(s, seq!['\n']) {
        law_undouble_reverses_doubling(s, '"');
        assert(f.subrange(1, f.len() - 1) =~= double_quotes(s, '"'));
    } else if s.len() >= 2 && s[0] == '"' {
        assert(s.subrange(0, 1) =~= seq!['"']);
        assert(occurs_at(s, seq!['"'], 0));
        assert(contains(s, seq!['"']));
    }
}

/// Quotes a CSV field only when it holds the delimiter, a quote or a newline.
pub fn csv_field(s: &str, delim: &str) -> (r: String)
    ensures
        r@ == csv_field_text(s@, delim@),
{
    proof {
        reveal_strlit("\"");
        reveal_strlit("\n");
        assert("\""@ =~= seq!['"']);
        assert("\n"@ =~= seq!['\n']);
    }
    if contains_exec(s, delim) || contains_exec(s, "\"") || contains_exec(s, "\n") {
        let mut out = String::new();
        push_char(&mut out, '"');
        push_doubled(&mut out, s, '"');
        push_char(&mut out, '"');
        out
    } else {
        String::from_str(s)
    }
}

/// How a CSV export is written.
pub struct CsvOptions {
    /// The field separator.
    pub delimiter: String,
    /// What a null or missing cell becomes (written unquoted).
    pub null_as: String,
    /// Whether the first line names the columns.
    pub include_headers: bool,
    /// Whether column names in the header line are quoted like fields.
    pub quote_headers: bool,
}

/// One data line: each column's cell, the null text for a null or missing
/// cell, joined with the delimiter.
pub open spec fn csv_line(
    columns: Seq<Seq<char>>,
    row: Row,
    delim: Seq<char>,
    null_as: Seq<char>,
) -> Seq<char> {
    join(
        columns.map_values(
            |c: Seq<char>|
                match lookup(row@, c) {
                    None => null_as,
                    Some(Json::Null) => null_as,
                    Some(v) => csv_field_text(cell_string(v), delim),
                },
        ),
        delim,
    )
}

/// The header line: the column names, quoted as fields when asked.
pub open spec fn csv_header(columns: Seq<Seq<char>>, delim: Seq<char>, quote: bool) -> Seq<char> {
    join(
        columns.map_values(
            |c: Seq<char>|
                if quote {
                    csv_field_text(c, delim)
                } else {
                    c
                },
        ),
        delim,
    )
}

/// The whole CSV text: the optional header line and one line per row,
/// joined with line breaks.
pub open spec fn csv_text(
    columns: Seq<Seq<char>>,
    rows: Seq<Row>,
    delim: Seq<char>,
    null_as: Seq<char>,
    headers: bool,
    quote_headers: bool,
) -> Seq<char> {
    let data = rows.map_values(|r: Row| csv_line(columns, r, delim, null_as));
    join(
        if headers {
            seq![csv_header(columns, delim, quote_headers)] + data
        } else {
            data
        },
        "\n"@,
    )
}

/// The text of cell `c` of a CSV data line.
fn csv_cell(row: &Row, c: &str, delim: &str, null_as: &str) -> (r: String)
    ensures
        r@ == match lookup(row@, c@) {
            None => null_as@,
            Some(Json::Null) => null_as@,
            Some(v) => csv_field_text(cell_string(v), delim@),
        },
{
    match row_get(row, c) {
        None => String::from_str(null_as),
        Some(Json::Null) => String::from_str(null_as),
        Some(v) => {
            let s = stringify_cell(v);
            csv_field(s.as_str(), delim)
        },
    }
}

/// The views of a list of strings.
pub open spec fn views(v: Seq<String>) -> Seq<Seq<char>> {
    v.map_values(|s: String| s@)
}

/// A CSV data line.
fn csv_line_exec(columns: &Vec<String>, row: &Row, delim: &str, null_as: &str) -> (r: String)
    ensures
        r@ == csv_line(views(columns@), *row, delim@, null_as@),
{
    let mut cells: Vec<String> = Vec::new();
    let mut i: usize = 0;
    while i < columns.len()
        invariant
            i <= columns@.len(),
            cells@.len() == i,
            forall|k: int|
                0 <= k < i ==> (#[trigger] cells@[k])@ == match lookup(row@, columns@[k]@) {
                    None => null_as@,
                    Some(Json::Null) => null_as@,
                    Some(v) => csv_field_text(cell_string(v), delim@),
                },
        decreases columns@.len() - i,
    {
        cells.push(csv_cell(row, columns[i].as_str(), delim, null_as));
        i = i + 1;
    }
    let r = join_strings(&cells, delim);
    assert(cells@.map_values(|s: String| s@) =~= views(columns@).map_values(
        |c: Seq<char>|
            match lookup(row@, c) {
                None => null_as@,
                Some(Json::Null) => null_as@,
                Some(v) => csv_field_text(cell_string(v), delim@),
            },
    ));
    r
}

/// Writes rows as CSV: an optional header line, then one line per row with
/// the cells in column order, lines separated by `\n`.
pub fn csv_export(columns: &Vec<String>, rows: &Vec<Row>, options: &CsvOptions) -> (r: String)
    ensures
        r@ == csv_text(
            views(columns@),
            rows@,
            options.delimiter@,
            options.null_as@,
            options.include_headers,
            options.quote_headers,
        ),
{
    let delim = options.delimiter.as_str();
    let null_as = options.null_as.as_str();
    let mut lines: Vec<String> = Vec::new();
    if options.include_headers {
        let mut names: Vec<String> = Vec::new();
        let mut i: usize = 0;
        while i < columns.len()
            invariant
                i <= columns@.len(),
                names@.len() == i,
                forall|k: int|
                    0 <= k < i ==> (#[trigger] names@[k])@ == if options.quote_headers {
                        csv_field_text(columns@[k]@, delim@)
                    } else {
                        columns@[k]@
                    },
            decreases columns@.len() - i,
        {
            if options.quote_headers {
                names.push(csv_field(columns[i].as_str(), delim));
            } else {
                names.push(columns[i].clone());
            }
            i = i + 1;
        }
        let header = join_strings(&names, delim);
        assert(names@.map_values(|s: String| s@) =~= views(columns@).map_values(
            |c: Seq<char>|
                if options.quote_headers {
                    csv_field_text(c, delim@)
                } else {
                    c
                },
        ));
        lines.push(header);
    }
    let ghost base = lines@.len();
    let mut j: usize = 0;
    while j < rows.len()
        invariant
            j <= rows@.len(),
            base == if options.include_headers {
                1int
            } else {
                0int
            },
            lines@.len() == base + j,
            options.include_headers ==> lines@[0]@ == csv_header(
                views(columns@),
                delim@,
                options.quote_headers,
            ),
            forall|k: int|
                0 <= k < j ==> (#[trigger] lines@[base + k])@ == csv_line(
                    views(columns@),
                    rows@[k],
                    delim@,
                    null_as@,
                ),
            delim@ == options.delimiter@,
            null_as@ == options.null_as@,
        decreases rows@.len() - j,
    {
        let line = csv_line_exec(columns, &rows[j], delim, null_as);
        lines.push(line);
        j = j + 1;
    }
    let ghost data = rows@.map_values(|r: Row| csv_line(views(columns@), r, delim@, null_as@));
    let ghost all = if options.include_headers {
        seq![csv_header(views(columns@), delim@, options.quote_headers)] + data
    } else {
        data
    };
    assert(lines@.map_values(|s: String| s@) =~= all) by {
        assert forall|k: int| 0 <= k < lines@.len() implies lines@.map_values(|s: String| s@)[k]
            == all[k] by {
            if options.include_headers && k == 0 {
            } else {
                assert(lines@[base + (k - base)] == lines@[k]);
            }
        }
    }
    join_strings(&lines, "\n")
}

// ---------------------------------------------------------------------------
// SQL export
// ---------------------------------------------------------------------------

/// The literal of cell `c` of a row (null when missing), booleans as
/// keywords when `bool_kw` holds.
pub open spec fn export_value(row: Row, c: Seq<char>, bool_kw: bool) -> Seq<char> {
    let v = match lookup(row@, c) {
        Some(v) => v,
        None => Json::Null,
    };
    if bool_kw {
        literal_kw_text(v)
    } else {
        literal_text(v)
    }
}

/// `INSERT INTO <table> (<cols>) VALUES (<vals>);` for one row.
pub open spec fn insert_line(table: Seq<char>, columns: Seq<Seq<char>>, row: Row, bool_kw: bool) -> Seq<
    char,
> {
    "INSERT INTO "@ + table + " ("@ + join(columns.map_values(|c: Seq<char>| quoted_ident(c)), ", "@)
        + ") VALUES ("@ + join(
        columns.map_values(|c: Seq<char>| export_value(row, c, bool_kw)),
        ", "@,
    ) + ");"@
}

/// One `INSERT` line per row, joined with line breaks.
pub open spec fn insert_block(
    table: Seq<char>,
    columns: Seq<Seq<char>>,
    rows: Seq<Row>,
    bool_kw: bool,
) -> Seq<char> {
    join(rows.map_values(|r: Row| insert_line(table, columns, r, bool_kw)), "\n"@)
}

/// The quoted column list.
fn quoted_columns(columns: &Vec<String>) -> (r: String)
    ensures
        r@ == join(views(columns@).map_values(|c: Seq<char>| quoted_ident(c)), ", "@),
{
    let mut names: Vec<String> = Vec::new();
    let mut i: usize = 0;
    while i < columns.len()
        invariant
            i <= columns@.len(),
            names@.len() == i,
            forall|k: int| 0 <= k < i ==> (#[trigger] names@[k])@ == quoted_ident(columns@[k]@),
        decreases columns@.len() - i,
    {
        names.push(quote_ident(columns[i].as_str()));
        i = i + 1;
    }
    assert(names@.map_values(|s: String| s@) =~= views(columns@).map_values(
        |c: Seq<char>| quoted_ident(c),
    ));
    join_strings(&names, ", ")
}

/// The literal of one exported cell.
fn export_value_exec(row: &Row, c: &str, bool_kw: bool) -> (r: String)
    ensures
        r@ == export_value(*row, c@, bool_kw),
{
    let null = Json::Null;
    let v = match row_get(row, c) {
        Some(v) => v,
        None => &null,
    };
    if bool_kw {
        literal_bool_kw(v)
    } else {
        literal(v)
    }
}

/// One `INSERT` line.
fn insert_line_exec(table: &str, columns: &Vec<String>, cols: &str, row: &Row, bool_kw: bool) -> (r:
    String)
    requires
        cols@ == join(views(columns@).map_values(|c: Seq<char>| quoted_ident(c)), ", "@),
    ensures
        r@ == insert_line(table@, views(columns@), *row, bool_kw),
{
    let mut vals: Vec<String> = Vec::new();
    let mut i: usize = 0;
    while i < columns.len()
        invariant
            i <= columns@.len(),
            vals@.len() == i,
            forall|k: int|
                0 <= k < i ==> (#[trigger] vals@[k])@ == export_value(*row, columns@[k]@, bool_kw),
        decreases columns@.len() - i,
    {
        vals.push(export_value_exec(row, columns[i].as_str(), bool_kw));
        i = i + 1;
    }
    assert(vals@.map_values(|s: String| s@) =~= views(columns@).map_values(
        |c: Seq<char>| export_value(*row, c, bool_kw),
    ));
    let values = join_strings(&vals, ", ");
    let mut out = String::from_str("INSERT INTO ");
    push_str(&mut out, table);
    push_str(&mut out, " (");
    push_str(&mut out, cols);
    push_str(&mut out, ") VALUES (");
    push_str(&mut out, values.as_str());
    push_str(&mut out, ");");
    out
}

/// The `INSERT INTO <table> (<cols>) VALUES (<vals>);` block of an SQL
/// export, one line per row; a missing cell is written as `NULL`; booleans
/// become `TRUE`/`FALSE` when `bool_kw` holds and quoted strings otherwise.
pub fn insert_statements(quoted_table: &str, columns: &Vec<String>, rows: &Vec<Row>, bool_kw: bool) -> (r:
    String)
    ensures
        r@ == insert_block(quoted_table@, views(columns@), rows@, bool_kw),
{
    let cols = quoted_columns(columns);
    let mut lines: Vec<String> = Vec::new();
    let mut j: usize = 0;
    while j < rows.len()
        invariant
            j <= rows@.len(),
            cols@ == join(views(columns@).map_values(|c: Seq<char>| quoted_ident(c)), ", "@),
            lines@.len() == j,
            forall|k: int|
                0 <= k < j ==> (#[trigger] lines@[k])@ == insert_line(
                    quoted_table@,
                    views(columns@),
                    rows@[k],
                    bool_kw,
                ),
        decreases rows@.len() - j,
    {
        lines.push(insert_line_exec(quoted_table, columns, cols.as_str(), &rows[j], bool_kw));
        j = j + 1;
    }
    assert(lines@.map_values(|s: String| s@) =~= rows@.map_values(
        |r: Row| insert_line(quoted_table@, views(columns@), r, bool_kw),
    ));
    join_strings(&lines, "\n")
}

// ---------------------------------------------------------------------------
// Export formats
// ---------------------------------------------------------------------------

/// The CSV delimiter an export's options ask for: the `delimiter` string
/// when non-empty, a comma otherwise.
pub open spec fn delimiter_option(options: Row) -> Seq<char> {
    match lookup(options@, "delimiter"@) {
        Some(Json::Str(s)) => if s@.len() > 0 {
            s@
        } else {
            ","@
        },
        _ => ","@,
    }
}

/// The null text an export's options ask for: the `nullAs` string, empty
/// otherwise.
pub open spec fn null_option(options: Row) -> Seq<char> {
    match lookup(options@, "nullAs"@) {
        Some(Json::Str(s)) => s@,
        _ => Seq::empty(),
    }
}

/// Headers are written unless `includeHeaders` is `false`.
pub open spec fn headers_option(options: Row) -> bool {
    !(lookup(options@, "includeHeaders"@) matches Some(Json::Bool(false)))
}

/// The CSV settings of a file export from its options; header names are
/// quoted like fields.
pub fn csv_options_from(options: &Row) -> (r: CsvOptions)
    ensures
        r.delimiter@ == delimiter_option(*options),
        r.null_as@ == null_option(*options),
        r.include_headers == headers_option(*options),
        r.quote_headers,
{
    let delimiter = match row_get(options, "delimiter") {
        Some(Json::Str(s)) => {
            if s.as_str().is_empty() {
                String::from_str(",")
            } else {
                s.clone()
            }
        },
        _ => String::from_str(","),
    };
    let null_as = match row_get(options, "nullAs") {
        Some(Json::Str(s)) => s.clone(),
        _ => String::new(),
    };
    let include_headers = match row_get(options, "includeHeaders") {
        Some(Json::Bool(b)) => *b,
        _ => true,
    };
    CsvOptions { delimiter, null_as, include_headers, quote_headers: true }
}

/// `Unknown format: <format>`.
pub open spec fn unknown_format(format: Seq<char>) -> Seq<char> {
    "Unknown format: "@ + format
}

/// `Unknown export format: <format>`.
pub open spec fn unknown_export_format(format: Seq<char>) -> Seq<char> {
    "Unknown export format: "@ + format
}

/// The text of an in-memory export in `format`: CSV with a plain header
/// line, comma-separated, nulls empty; pretty JSON of the rows; or the
/// `INSERT` block for the named table with booleans quoted. SQL needs a
/// non-empty table name; any other format is refused.
pub open spec fn data_export_text(
    columns: Seq<Seq<char>>,
    rows: Seq<Row>,
    table: Option<Seq<char>>,
    format: Seq<char>,
) -> Result<Seq<char>, Seq<char>> {
    if format == "csv"@ {
        Ok(csv_text(columns, rows, ","@, Seq::empty(), true, false))
    } else if format == "json"@ {
        Ok(pretty_rows_text(rows))
    } else if format == "sql"@ {
        match table {
            Some(t) if t.len() > 0 => Ok(insert_block(quoted_ident(t), columns, rows, false)),
            _ => Err("Table name required for SQL export"@),
        }
    } else {
        Err(unknown_format(format))
    }
}

/// The text of a file export in `format`: CSV as the options ask, with
/// quoted header names; pretty JSON of the rows; or the `INSERT` block for
/// the table with booleans as keywords. Any other format is refused.
pub open spec fn file_export_text(
    table: Seq<char>,
    columns: Seq<Seq<char>>,
    rows: Seq<Row>,
    format: Seq<char>,
    options: Row,
) -> Result<Seq<char>, Seq<char>> {
    if format == "csv"@ {
        Ok(
            csv_text(
                columns,
                rows,
                delimiter_option(options),
                null_option(options),
                headers_option(options),
                true,
            ),
        )
    } else if format == "json"@ {
        Ok(pretty_rows_text(rows))
    } else if format == "sql"@ {
        Ok(insert_block(quoted_ident(table), columns, rows, true))
    } else {
        Err(unknown_export_format(format))
    }
}

/// Renders a query result for an in-memory export.
pub fn export_data_text(columns: &Vec<String>, rows: &Vec<Row>, table: Option<&str>, format: &str) -> (r:
    Result<String, String>)
    ensures
        match r {
            Ok(s) => data_export_text(views(columns@), rows@, opt_str(table), format@) == Ok::<
                Seq<char>,
                Seq<char>,
            >(s@),
            Err(e) => data_export_text(views(columns@), rows@, opt_str(table), format@)
                == Err::<Seq<char>, Seq<char>>(e@),
        },
{
    if str_eq(format, "csv") {
        let options = CsvOptions {
            delimiter: String::from_str(","),
            null_as: String::new(),
            include_headers: true,
            quote_headers: false,
        };
        Ok(csv_export(columns, rows, &options))
    } else if str_eq(format, "json") {
        Ok(pretty_rows(rows))
    } else if str_eq(format, "sql") {
        match table {
            Some(t) => {
                if !t.is_empty() {
                    let q = quote_ident(t);
                    return Ok(insert_statements(q.as_str(), columns, rows, false));
                }
            },
            None => {},
        }
        Err(String::from_str("Table name required for SQL export"))
    } else {
        let mut m = String::from_str("Unknown format: ");
        push_str(&mut m, format);
        Err(m)
    }
}

/// Renders a table for a file export.
pub fn export_file_text(
    table: &str,
    columns: &Vec<String>,
    rows: &Vec<Row>,
    format: &str,
    options: &Row,
) -> (r: Result<String, String>)
    ensures
        match r {
            Ok(s) => file_export_text(table@, views(columns@), rows@, format@, *options) == Ok::<
                Seq<char>,
                Seq<char>,
            >(s@),
            Err(e) => file_export_text(table@, views(columns@), rows@, format@, *options) == Err::<
                Seq<char>,
                Seq<char>,
            >(e@),
        },
{
    if str_eq(format, "csv") {
        let options = csv_options_from(options);
        Ok(csv_export(columns, rows, &options))
    } else if str_eq(format, "json") {
        Ok(pretty_rows(rows))
    } else if str_eq(format, "sql") {
        let q = quote_ident(table);
        Ok(insert_statements(q.as_str(), columns, rows, true))
    } else {
        let mut m = String::from_str("Unknown export format: ");
        push_str(&mut m, format);
        Err(m)
    }
}

} // verus!
