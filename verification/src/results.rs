//! What a statement returns: the driver's raw result and the timed result
//! handed to the query editor and the data grid.

use vstd::prelude::*;

use crate::json::Row;

verus! {

/// What an adapter returns for one statement. `column_types` is always
/// empty: typed column metadata is not collected.
#[derive(Debug)]
pub struct RawResult {
    pub columns: Vec<String>,
    pub column_types: Row,
    pub rows: Vec<Row>,
    pub rows_affected: u64,
}

/// A statement's result as the editor shows it, with its wall-clock time in
/// milliseconds, the error when it failed, and, for one statement of a
/// script, the statement itself.
#[derive(Debug)]
pub struct QueryResult {
    pub columns: Vec<String>,
    pub column_types: Row,
    pub rows: Vec<Row>,
    pub rows_affected: u64,
    pub execution_time: u64,
    pub error: Option<String>,
    pub sql: Option<String>,
}

/// One page of the data grid with the total row count of the filtered table.
#[derive(Debug)]
pub struct RowsResponse {
    pub rows: Vec<Row>,
    pub columns: Vec<String>,
    pub column_types: Row,
    pub total: i64,
    pub page: u64,
    pub page_size: u64,
}

impl RawResult {
    /// The result of a statement that returns no rows: nothing but the
    /// affected count.
    pub fn affected(rows_affected: u64) -> (r: RawResult)
        ensures
            r.columns@.len() == 0,
            r.column_types@.len() == 0,
            r.rows@.len() == 0,
            r.rows_affected == rows_affected,
    {
        RawResult {
            columns: Vec::new(),
            column_types: Vec::new(),
            rows: Vec::new(),
            rows_affected,
        }
    }
}

impl RawResult {
    /// The result of a statement that returns rows: the columns and rows,
    /// the count being the number of rows.
    pub fn read(columns: Vec<String>, rows: Vec<Row>) -> (r: RawResult)
        ensures
            r.columns == columns,
            r.column_types@.len() == 0,
            r.rows == rows,
            r.rows_affected == rows@.len(),
    {
        let n = rows.len() as u64;
        RawResult { columns, column_types: Vec::new(), rows, rows_affected: n }
    }
}

impl RowsResponse {
    /// A page of the grid: the page query's result with the filtered total
    /// and the page asked for.
    pub fn page(raw: RawResult, total: i64, page: u64, page_size: u64) -> (r: RowsResponse)
        ensures
            r.rows == raw.rows,
            r.columns == raw.columns,
            r.column_types == raw.column_types,
            r.total == total,
            r.page == page,
            r.page_size == page_size,
    {
        RowsResponse {
            rows: raw.rows,
            columns: raw.columns,
            column_types: raw.column_types,
            total,
            page,
            page_size,
        }
    }
}

impl QueryResult {
    /// A successful result: the raw result's columns, rows and count, with
    /// the time taken and no error.
    pub fn from_raw(raw: RawResult, execution_time: u64) -> (r: QueryResult)
        ensures
            r.columns == raw.columns,
            r.column_types == raw.column_types,
            r.rows == raw.rows,
            r.rows_affected == raw.rows_affected,
            r.execution_time == execution_time,
            r.error is None,
            r.sql is None,
    {
        QueryResult {
            columns: raw.columns,
            column_types: raw.column_types,
            rows: raw.rows,
            rows_affected: raw.rows_affected,
            execution_time,
            error: None,
            sql: None,
        }
    }

    /// A failed result: no columns or rows, zero affected, the time taken and
    /// the error.
    pub fn failure(error: String, execution_time: u64) -> (r: QueryResult)
        ensures
            r.columns@.len() == 0,
            r.column_types@.len() == 0,
            r.rows@.len() == 0,
            r.rows_affected == 0,
            r.execution_time == execution_time,
            r.error == Some(error),
            r.sql is None,
    {
        QueryResult {
            columns: Vec::new(),
            column_types: Vec::new(),
            rows: Vec::new(),
            rows_affected: 0,
            execution_time,
            error: Some(error),
            sql: None,
        }
    }
}

} // verus!
