//! JSON value to SQL literal rules shared by row edits, exports and mock
//! data.

use vstd::prelude::*;

use crate::filters::{quote_ident, quoted_ident, sql_literal, sql_string};
use crate::json::{json_text, json_to_text, Json, JsonNumber};
use crate::text::{decimal, push_decimal, push_signed, push_str, signed_decimal};

verus! {

broadcast use vstd::string::group_string_axioms;

/// A number as a script language prints it: integers in decimal, floats as
/// `f64` displays them (`3.0` prints as `3`).
pub open spec fn number_display(n: JsonNumber) -> Seq<char> {
    match n {
        JsonNumber::PosInt(u) => decimal(u as nat),
        JsonNumber::NegInt(i) => signed_decimal(i as int),
        JsonNumber::Float(f) => f.display_text@,
    }
}

/// A value as text: strings as they are, booleans as `true`/`false`,
/// anything else as compact JSON.
pub open spec fn stringified(v: Json) -> Seq<char> {
    match v {
        Json::Str(s) => s@,
        Json::Bool(b) => if b {
            "true"@
        } else {
            "false"@
        },
        _ => json_text(v),
    }
}

/// The SQL literal for a value: `NULL`, a bare number, or a quoted string
/// for everything else, booleans included (`'true'`).
pub open spec fn literal_text(v: Json) -> Seq<char> {
    match v {
        Json::Null => "NULL"@,
        Json::Number(n) => number_display(n),
        _ => sql_literal(stringified(v)),
    }
}

/// As [`literal_text`], but booleans become the keywords `TRUE`/`FALSE`.
pub open spec fn literal_kw_text(v: Json) -> Seq<char> {
    match v {
        Json::Bool(b) => if b {
            "TRUE"@
        } else {
            "FALSE"@
        },
        _ => literal_text(v),
    }
}

/// `"col" IS NULL` for null, `"col" = <literal>` otherwise.
pub open spec fn where_eq_text(col: Seq<char>, v: Json) -> Seq<char> {
    match v {
        Json::Null => quoted_ident(col) + " IS NULL"@,
        _ => quoted_ident(col) + " = "@ + literal_text(v),
    }
}

/// A number as text: integers in decimal, floats in their display form.
pub fn number_string(n: &JsonNumber) -> (r: String)
    ensures
        r@ == number_display(*n),
{
    let mut out = String::new();
    match n {
        JsonNumber::PosInt(u) => push_decimal(&mut out, *u),
        JsonNumber::NegInt(i) => push_signed(&mut out, *i),
        JsonNumber::Float(f) => push_str(&mut out, f.display_text.as_str()),
    }
    out
}

/// A value as text: strings as they are, booleans as `true`/`false`,
/// anything else as compact JSON.
pub fn stringify(v: &Json) -> (r: String)
    ensures
        r@ == stringified(*v),
{
    match v {
        Json::Str(s) => s.clone(),
        Json::Bool(b) => {
            if *b {
                String::from_str("true")
            } else {
                String::from_str("false")
            }
        },
        _ => json_to_text(v),
    }
}

/// The SQL literal for a value: `NULL` for null, a bare number for a number,
/// and a single-quoted string for everything else, booleans included.
pub fn literal(v: &Json) -> (r: String)
    ensures
        r@ == literal_text(*v),
{
    match v {
        Json::Null => String::from_str("NULL"),
        Json::Number(n) => number_string(n),
        _ => {
            let s = stringify(v);
            sql_string(s.as_str())
        },
    }
}

/// Like [`literal`], but booleans become the keywords `TRUE` and `FALSE`.
pub fn literal_bool_kw(v: &Json) -> (r: String)
    ensures
        r@ == literal_kw_text(*v),
{
    match v {
        Json::Bool(b) => {
            if *b {
                String::from_str("TRUE")
            } else {
                String::from_str("FALSE")
            }
        },
        _ => literal(v),
    }
}

/// The `WHERE` fragment matching one key column: `"col" IS NULL` for null,
/// `"col" = <literal>` otherwise.
pub fn where_eq(col: &str, v: &Json) -> (r: String)
    ensures
        r@ == where_eq_text(col@, *v),
{
    let mut out = quote_ident(col);
    match v {
        Json::Null => {
            push_str(&mut out, " IS NULL");
        },
        _ => {
            push_str(&mut out, " = ");
            let lit = literal(v);
            push_str(&mut out, lit.as_str());
        },
    }
    out
}

} // verus!
