//! The per-engine label and accent colour shown on connection cards,
//! badges and the status bar.

use vstd::prelude::*;

use crate::text::str_eq;

verus! {

broadcast use vstd::string::group_string_axioms;

/// The accent colours of the engines.
#[derive(Clone, Copy, Debug, PartialEq, Eq, Structural)]
pub enum Accent {
    Blue,
    Teal,
    Orange,
    Gray,
}

/// The display name of an engine type: `PostgreSQL`, `SQLite`, `MySQL`, or
/// `unknown` for any other type.
pub open spec fn label_of(kind: Seq<char>) -> Seq<char> {
    if kind == "postgres"@ {
        "PostgreSQL"@
    } else if kind == "sqlite"@ {
        "SQLite"@
    } else if kind == "mysql"@ {
        "MySQL"@
    } else {
        "unknown"@
    }
}

/// The accent of an engine type: blue, teal, orange, or gray for any other.
pub open spec fn accent_of(kind: Seq<char>) -> Accent {
    if kind == "postgres"@ {
        Accent::Blue
    } else if kind == "sqlite"@ {
        Accent::Teal
    } else if kind == "mysql"@ {
        Accent::Orange
    } else {
        Accent::Gray
    }
}

/// The display name of an engine type.
pub fn type_label(kind: &str) -> (r: &'static str)
    ensures
        r@ == label_of(kind@),
{
    if str_eq(kind, "postgres") {
        "PostgreSQL"
    } else if str_eq(kind, "sqlite") {
        "SQLite"
    } else if str_eq(kind, "mysql") {
        "MySQL"
    } else {
        "unknown"
    }
}

/// The accent colour of an engine type.
pub fn type_color(kind: &str) -> (r: Accent)
    ensures
        r == accent_of(kind@),
{
    if str_eq(kind, "postgres") {
        Accent::Blue
    } else if str_eq(kind, "sqlite") {
        Accent::Teal
    } else if str_eq(kind, "mysql") {
        Accent::Orange
    } else {
        Accent::Gray
    }
}

} // verus!
