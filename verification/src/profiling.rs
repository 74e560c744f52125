//! The whole-number part of a column profile: the counts and extremes read
//! from the statistics row, the zero profile of a column whose statistics
//! could not be read, and the most frequent values.

use vstd::prelude::*;

use crate::cells::{
    cell_opt, cell_opt_text, cell_or_empty, count_cell, count_reading, lookup, row_get, text,
};
use crate::json::Row;
use crate::text::opt_text;
use crate::types::{ColumnInfo, TopValue};

verus! {

broadcast use vstd::string::group_string_axioms;

/// A column's profile without its averages and percentages: the row count
/// of the table, the column's nulls and distinct values, and its smallest
/// and largest values as text.
#[derive(Clone, Debug, PartialEq)]
pub struct ProfileCounts {
    pub column: String,
    pub data_type: String,
    pub total_rows: i64,
    pub null_count: i64,
    pub distinct_count: i64,
    pub min_value: Option<String>,
    pub max_value: Option<String>,
}

/// The profile of a column whose statistics could not be read: the table's
/// row count, zero counts and no extremes.
pub fn zero_counts(col: &ColumnInfo, total_rows: i64) -> (r: ProfileCounts)
    ensures
        r.column == col.name,
        r.data_type == col.data_type,
        r.total_rows == total_rows,
        r.null_count == 0,
        r.distinct_count == 0,
        r.min_value is None,
        r.max_value is None,
{
    ProfileCounts {
        column: col.name.clone(),
        data_type: col.data_type.clone(),
        total_rows,
        null_count: 0,
        distinct_count: 0,
        min_value: None,
        max_value: None,
    }
}

/// The profile read from the statistics row (`null_count`,
/// `distinct_count`, `min_val`, `max_val`), or zeros and no extremes when
/// the statistics returned no row. `null_decimal` and `distinct_decimal`
/// are the decimal readings of those cells when they are text.
pub fn counts_from_stats(
    col: &ColumnInfo,
    total_rows: i64,
    stats: Option<&Row>,
    null_decimal: Option<i64>,
    distinct_decimal: Option<i64>,
) -> (r: ProfileCounts)
    ensures
        r.column == col.name,
        r.data_type == col.data_type,
        r.total_rows == total_rows,
        match stats {
            Some(row) => {
                &&& r.null_count == count_reading(lookup(row@, "null_count"@), null_decimal)
                &&& r.distinct_count == count_reading(
                    lookup(row@, "distinct_count"@),
                    distinct_decimal,
                )
                &&& opt_text(r.min_value) == cell_opt_text(lookup(row@, "min_val"@))
                &&& opt_text(r.max_value) == cell_opt_text(lookup(row@, "max_val"@))
            },
            None => r.null_count == 0 && r.distinct_count == 0 && r.min_value is None
                && r.max_value is None,
        },
{
    match stats {
        Some(row) => ProfileCounts {
            column: col.name.clone(),
            data_type: col.data_type.clone(),
            total_rows,
            null_count: count_cell(row_get(row, "null_count"), null_decimal),
            distinct_count: count_cell(row_get(row, "distinct_count"), distinct_decimal),
            min_value: cell_opt(row, "min_val"),
            max_value: cell_opt(row, "max_val"),
        },
        None => zero_counts(col, total_rows),
    }
}

/// One of the most frequent values: its `val` cell as text (empty when
/// null) and its `cnt` cell as a count, `cnt_decimal` being the decimal
/// reading of that cell when it is text.
pub fn top_value(row: &Row, cnt_decimal: Option<i64>) -> (r: TopValue)
    ensures
        r.value@ == cell_or_empty(lookup(row@, "val"@)),
        r.count == count_reading(lookup(row@, "cnt"@), cnt_decimal),
{
    TopValue { value: text(row_get(row, "val")), count: count_cell(row_get(row, "cnt"), cnt_decimal) }
}

} // verus!
