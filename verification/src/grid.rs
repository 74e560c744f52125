//! The data grid's paging bar and the workspace header: the last page of a
//! result, which page moves are possible, and the name a connection is
//! shown under.

use vstd::prelude::*;

verus! {

broadcast use vstd::string::group_string_axioms;

/// The number of pages `total` rows fill at `page_size` rows a page, and at
/// least one page even for no rows.
pub open spec fn page_count(total: int, page_size: int) -> int {
    let rows = if total < 0 {
        0
    } else {
        total
    };
    let pages = (rows + page_size - 1) / page_size;
    if pages < 1 {
        1
    } else {
        pages
    }
}

/// The last page of a result of `total` rows (a negative total counts as
/// none).
pub fn last_page(total: i64, page_size: u64) -> (r: u64)
    requires
        page_size >= 1,
        (if total < 0 {
            0
        } else {
            total as int
        }) + page_size <= u64::MAX,
    ensures
        r == page_count(total as int, page_size as int),
{
    let rows: u64 = if total < 0 {
        0
    } else {
        total as u64
    };
    let pages = (rows + page_size - 1) / page_size;
    if pages < 1 {
        1
    } else {
        pages
    }
}

/// Whether the grid can move to the previous page.
pub fn can_go_back(page: u64) -> (r: bool)
    ensures
        r == (page > 1),
{
    page > 1
}

/// Whether the grid can move to the next page.
pub fn can_go_forward(page: u64, last: u64) -> (r: bool)
    ensures
        r == (page < last),
{
    page < last
}

/// The name a connection is shown under: its own when it has a non-empty
/// one, `Connection` otherwise.
pub open spec fn shown_name_of(name: Option<Seq<char>>) -> Seq<char> {
    match name {
        Some(n) => if n.len() > 0 {
            n
        } else {
            "Connection"@
        },
        None => "Connection"@,
    }
}

/// The name a connection is shown under.
pub fn shown_name(name: Option<&str>) -> (r: String)
    ensures
        r@ == shown_name_of(match name {
            Some(n) => Some(n@),
            None => None,
        }),
{
    match name {
        Some(n) => {
            if n.is_empty() {
                String::from_str("Connection")
            } else {
                String::from_str(n)
            }
        },
        None => String::from_str("Connection"),
    }
}

} // verus!
