//! Loading rows: the progress of a batch of `INSERT` statements, which
//! stops at the first failure, and the outcome of a single imported
//! statement.

use vstd::prelude::*;

use crate::text::{decimal, ends_with, has_suffix, push_decimal, push_str, str_eq};
use crate::types::{ImportResult, ImportSqlResult, TableInfo};

verus! {

broadcast use vstd::string::group_string_axioms;

/// `Row <n>: <error>`, for the `n`-th statement.
pub open spec fn row_error(n: nat, error: Seq<char>) -> Seq<char> {
    "Row "@ + decimal(n) + ": "@ + error
}

/// How far a batch of statements has got: how many ran, out of how many,
/// and the failure that stopped it.
#[derive(Debug)]
pub struct ImportProgress {
    pub inserted: u64,
    pub total: u64,
    pub error: Option<String>,
}

impl ImportProgress {
    /// A batch of `total` statements, none run yet.
    pub fn new(total: u64) -> (r: ImportProgress)
        ensures
            r.inserted == 0,
            r.total == total,
            r.error is None,
    {
        ImportProgress { inserted: 0, total, error: None }
    }

    /// Records the outcome of the next statement and says whether to go on:
    /// a success counts it; a failure is kept as `Row <n>: <error>`, `n`
    /// being its position, and ends the batch.
    pub fn record(&mut self, outcome: Result<(), String>) -> (go_on: bool)
        requires
            old(self).error is None,
            old(self).inserted < old(self).total,
        ensures
            final(self).total == old(self).total,
            match outcome {
                Ok(_) => go_on && final(self).inserted == old(self).inserted + 1
                    && final(self).error is None,
                Err(e) => {
                    &&& !go_on
                    &&& final(self).inserted == old(self).inserted
                    &&& final(self).error matches Some(m)
                    &&& m@ == row_error((old(self).inserted + 1) as nat, e@)
                },
            },
    {
        match outcome {
            Ok(_) => {
                self.inserted = self.inserted + 1;
                true
            },
            Err(e) => {
                let mut m = String::from_str("Row ");
                push_decimal(&mut m, self.inserted + 1);
                push_str(&mut m, ": ");
                push_str(&mut m, e.as_str());
                self.error = Some(m);
                false
            },
        }
    }

    /// The batch's result.
    pub fn finish(self) -> (r: ImportResult)
        ensures
            r.inserted == self.inserted,
            r.total == self.total,
            r.error == self.error,
    {
        ImportResult { inserted: self.inserted, total: self.total, error: self.error }
    }
}

/// The outcome of one imported statement: success with its affected count,
/// or failure with the error and no count.
pub fn sql_import_result(outcome: Result<u64, String>) -> (r: ImportSqlResult)
    ensures
        match outcome {
            Ok(n) => r.success && r.error is None && r.rows_affected == n,
            Err(e) => !r.success && r.error == Some(e) && r.rows_affected == 0,
        },
{
    match outcome {
        Ok(n) => ImportSqlResult { success: true, error: None, rows_affected: n },
        Err(e) => ImportSqlResult { success: false, error: Some(e), rows_affected: 0 },
    }
}

/// The outcome of an import with no SQL: `No SQL provided`.
pub fn missing_sql_result() -> (r: ImportSqlResult)
    ensures
        !r.success,
        r.error matches Some(e) && e@ == "No SQL provided"@,
        r.rows_affected == 0,
{
    ImportSqlResult {
        success: false,
        error: Some(String::from_str("No SQL provided")),
        rows_affected: 0,
    }
}

/// How many mock rows to generate: the count asked for, ten when none is.
pub fn mock_row_count(count: usize) -> (r: usize)
    ensures
        r == if count == 0 {
            10
        } else {
            count
        },
{
    if count == 0 {
        10
    } else {
        count
    }
}

/// The text of `o` when it is present and non-empty.
pub fn given(o: Option<&str>) -> (r: Option<String>)
    ensures
        match o {
            Some(t) => if t@.len() > 0 {
                r matches Some(s) && s@ == t@
            } else {
                r is None
            },
            None => r is None,
        },
{
    match o {
        Some(t) => {
            if t.is_empty() {
                None
            } else {
                Some(String::from_str(t))
            }
        },
        None => None,
    }
}

/// The delimiter of an inline CSV import: the one given when non-empty,
/// otherwise a comma.
pub fn csv_delimiter(given_delimiter: Option<&str>) -> (r: String)
    ensures
        r@ == match given_delimiter {
            Some(d) => if d@.len() > 0 {
                d@
            } else {
                ","@
            },
            None => ","@,
        },
{
    match given_delimiter {
        Some(d) => {
            if d.is_empty() {
                String::from_str(",")
            } else {
                String::from_str(d)
            }
        },
        None => String::from_str(","),
    }
}

/// The delimiter of a CSV file import: a tab for a `.tsv` file, otherwise a
/// comma.
pub fn file_delimiter(path: &str) -> (r: String)
    ensures
        r@ == if has_suffix(path@, ".tsv"@) {
            "\t"@
        } else {
            ","@
        },
{
    if ends_with(path, ".tsv") {
        String::from_str("\t")
    } else {
        String::from_str(",")
    }
}

/// The names of the tables among `tables`, views left out, in order.
pub open spec fn table_names(tables: Seq<TableInfo>) -> Seq<Seq<char>>
    decreases tables.len(),
{
    if tables.len() == 0 {
        Seq::empty()
    } else {
        let rest = table_names(tables.drop_last());
        if tables.last().kind@ == "table"@ {
            rest.push(tables.last().name@)
        } else {
            rest
        }
    }
}

/// The tables whose schemas a comparison reads: the real tables, in order.
pub fn real_tables(tables: &Vec<TableInfo>) -> (r: Vec<String>)
    ensures
        r@.map_values(|s: String| s@) == table_names(tables@),
{
    let mut out: Vec<String> = Vec::new();
    let mut i: usize = 0;
    while i < tables.len()
        invariant
            i <= tables@.len(),
            out@.map_values(|s: String| s@) == table_names(tables@.subrange(0, i as int)),
        decreases tables@.len() - i,
    {
        assert(tables@.subrange(0, i as int + 1).drop_last() =~= tables@.subrange(0, i as int));
        if str_eq(tables[i].kind.as_str(), "table") {
            out.push(tables[i].name.clone());
        }
        assert(out@.map_values(|s: String| s@) =~= table_names(
            tables@.subrange(0, i as int + 1),
        ));
        i = i + 1;
    }
    assert(tables@.subrange(0, tables@.len() as int) =~= tables@);
    out
}

} // verus!
