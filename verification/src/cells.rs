//! Reading driver cells: lookup by column, display text, truthiness and
//! integer readings, as the introspection and grid code use them.

use vstd::prelude::*;

use crate::json::{json_text, json_to_text, Json, JsonNumber, Row};
use crate::text::{chars_of, push_str, str_eq, trim, trimmed};

verus! {

broadcast use vstd::string::group_string_axioms;

// ---------------------------------------------------------------------------
// Lookup
// ---------------------------------------------------------------------------

/// The index of the first member named `key`, at or after `from`.
pub open spec fn find_from(row: Seq<(String, Json)>, key: Seq<char>, from: int) -> Option<int>
    decreases row.len() - from,
{
    if from < 0 || from >= row.len() {
        None
    } else if row[from].0@ == key {
        Some(from)
    } else {
        find_from(row, key, from + 1)
    }
}

/// The value of the first member named `key`.
pub open spec fn lookup(row: Seq<(String, Json)>, key: Seq<char>) -> Option<Json> {
    match find_from(row, key, 0) {
        Some(i) => Some(row[i].1),
        None => None,
    }
}

proof fn lemma_find_from_range(row: Seq<(String, Json)>, key: Seq<char>, from: int)
    ensures
        find_from(row, key, from) matches Some(i) ==> from <= i < row.len() && row[i].0@ == key,
    decreases row.len() - from,
{
    if 0 <= from < row.len() && row[from].0@ != key {
        lemma_find_from_range(row, key, from + 1);
    }
}

/// The value of the first member named `key` (`Map::get` on a row).
pub fn row_get<'a>(row: &'a Row, key: &str) -> (r: Option<&'a Json>)
    ensures
        match r {
            Some(v) => lookup(row@, key@) == Some(*v),
            None => lookup(row@, key@) is None,
        },
{
    let mut i: usize = 0;
    while i < row.len()
        invariant
            i <= row@.len(),
            find_from(row@, key@, 0) == find_from(row@, key@, i as int),
        decreases row@.len() - i,
    {
        if str_eq(row[i].0.as_str(), key) {
            return Some(&row[i].1);
        }
        i = i + 1;
    }
    None
}

/// Sets member `key` of a row the way a JSON object does: a member already
/// named `key` keeps its place and takes the new value, otherwise the
/// member is added at the end.
pub fn set_member(row: &mut Row, key: String, value: Json)
    ensures
        match find_from(old(row)@, key@, 0) {
            Some(i) => final(row)@ == old(row)@.update(i, (old(row)@[i].0, value)),
            None => final(row)@ == old(row)@.push((key, value)),
        },
{
    let mut i: usize = 0;
    while i < row.len()
        invariant
            i <= row@.len(),
            row@ == old(row)@,
            find_from(row@, key@, 0) == find_from(row@, key@, i as int),
        decreases row@.len() - i,
    {
        if str_eq(row[i].0.as_str(), key.as_str()) {
            proof {
                lemma_find_from_range(row@, key@, i as int);
            }
            let name = row[i].0.clone();
            row.set(i, (name, value));
            return;
        }
        i = i + 1;
    }
    row.push((key, value));
}

// ---------------------------------------------------------------------------
// Text readings
// ---------------------------------------------------------------------------

/// A cell as export text: empty for null, strings as they are, anything else
/// as compact JSON.
pub open spec fn cell_string(v: Json) -> Seq<char> {
    match v {
        Json::Null => Seq::empty(),
        Json::Str(s) => s@,
        _ => json_text(v),
    }
}

/// A possibly missing cell as optional text: nothing for a missing or null
/// cell, strings as they are, anything else as compact JSON.
pub open spec fn cell_opt_text(v: Option<Json>) -> Option<Seq<char>> {
    match v {
        None => None,
        Some(Json::Null) => None,
        Some(Json::Str(s)) => Some(s@),
        Some(other) => Some(json_text(other)),
    }
}

/// A possibly missing cell as text, the empty text when there is none.
pub open spec fn cell_or_empty(v: Option<Json>) -> Seq<char> {
    match cell_opt_text(v) {
        Some(s) => s,
        None => Seq::empty(),
    }
}

/// A cell of the data grid: the null placeholder for a missing or null cell.
pub open spec fn grid_text(v: Option<Json>, null_display: Seq<char>) -> Seq<char> {
    match cell_opt_text(v) {
        Some(s) => s,
        None => null_display,
    }
}

/// Renders a cell for export: empty for null, strings unquoted, anything
/// else as compact JSON.
pub fn stringify_cell(v: &Json) -> (r: String)
    ensures
        r@ == cell_string(*v),
{
    match v {
        Json::Null => String::new(),
        Json::Str(s) => s.clone(),
        _ => json_to_text(v),
    }
}

/// A possibly missing cell as optional text.
pub fn text_opt(v: Option<&Json>) -> (r: Option<String>)
    ensures
        match r {
            Some(s) => cell_opt_text(opt_json(v)) == Some(s@),
            None => cell_opt_text(opt_json(v)) is None,
        },
{
    match v {
        None => None,
        Some(Json::Null) => None,
        Some(Json::Str(s)) => Some(s.clone()),
        Some(other) => Some(json_to_text(other)),
    }
}

/// A borrowed optional cell as a value.
pub open spec fn opt_json(v: Option<&Json>) -> Option<Json> {
    match v {
        Some(j) => Some(*j),
        None => None,
    }
}

/// A possibly missing cell as text, empty when missing or null.
pub fn text(v: Option<&Json>) -> (r: String)
    ensures
        r@ == cell_or_empty(opt_json(v)),
{
    match text_opt(v) {
        Some(s) => s,
        None => String::new(),
    }
}

/// The cell `key` of a row as optional text.
pub fn cell_opt(row: &Row, key: &str) -> (r: Option<String>)
    ensures
        match r {
            Some(s) => cell_opt_text(lookup(row@, key@)) == Some(s@),
            None => cell_opt_text(lookup(row@, key@)) is None,
        },
{
    text_opt(row_get(row, key))
}

/// A grid cell as display text, the placeholder for null.
pub fn cell_text(value: Option<&Json>, null_display: &str) -> (r: String)
    ensures
        r@ == grid_text(opt_json(value), null_display@),
{
    match text_opt(value) {
        Some(s) => s,
        None => String::from_str(null_display),
    }
}

// ---------------------------------------------------------------------------
// Truthiness
// ---------------------------------------------------------------------------

/// Whether a driver flag reads as set: `true`, a non-zero number, or a
/// non-empty string.
pub open spec fn is_truthy(v: Option<Json>) -> bool {
    match v {
        Some(Json::Bool(b)) => b,
        Some(Json::Number(JsonNumber::PosInt(u))) => u != 0,
        Some(Json::Number(JsonNumber::NegInt(i))) => i != 0,
        Some(Json::Number(JsonNumber::Float(f))) => !f.is_zero,
        Some(Json::Str(s)) => s@.len() != 0,
        _ => false,
    }
}

/// Whether a driver flag reads as set.
pub fn truthy(v: Option<&Json>) -> (r: bool)
    ensures
        r == is_truthy(opt_json(v)),
{
    match v {
        Some(Json::Bool(b)) => *b,
        Some(Json::Number(JsonNumber::PosInt(u))) => *u != 0,
        Some(Json::Number(JsonNumber::NegInt(i))) => *i != 0,
        Some(Json::Number(JsonNumber::Float(f))) => !f.is_zero,
        Some(Json::Str(s)) => !s.as_str().is_empty(),
        _ => false,
    }
}

// ---------------------------------------------------------------------------
// Integer readings
// ---------------------------------------------------------------------------

/// An ASCII decimal digit.
pub open spec fn is_digit(c: char) -> bool {
    '0' <= c && c <= '9'
}

/// The value of a run of decimal digits.
pub open spec fn digits_value(s: Seq<char>) -> nat
    decreases s.len(),
{
    if s.len() == 0 {
        0
    } else {
        10 * digits_value(s.drop_last()) + ((s.last() as nat) - 48) as nat
    }
}

/// Every character is a decimal digit.
pub open spec fn all_digits(s: Seq<char>) -> bool {
    forall|i: int| 0 <= i < s.len() ==> is_digit(#[trigger] s[i])
}

/// Whether the text starts with a sign, and the text after it.
pub open spec fn sign_and_body(s: Seq<char>) -> (bool, Seq<char>) {
    if s.len() > 0 && s[0] == '-' {
        (true, s.drop_first())
    } else if s.len() > 0 && s[0] == '+' {
        (false, s.drop_first())
    } else {
        (false, s)
    }
}

/// `str::parse::<i64>`: an optional `+` or `-`, then one or more decimal
/// digits, with a value in the `i64` range; nothing else is accepted.
pub open spec fn parse_i64_text(s: Seq<char>) -> Option<i64> {
    let (neg, body) = sign_and_body(s);
    if body.len() == 0 || !all_digits(body) {
        None
    } else {
        let m = digits_value(body) as int;
        let v = if neg {
            -m
        } else {
            m
        };
        if i64::MIN <= v && v <= i64::MAX {
            Some(v as i64)
        } else {
            None
        }
    }
}

proof fn lemma_digits_value_grows(s: Seq<char>, k: int)
    requires
        0 <= k <= s.len(),
        all_digits(s),
    ensures
        digits_value(s.take(k)) <= digits_value(s),
    decreases s.len() - k,
{
    if k < s.len() {
        lemma_digits_value_grows(s.drop_last(), if k <= s.len() - 1 {
            k
        } else {
            s.len() - 1
        });
        assert(s.drop_last().take(k) =~= s.take(k));
        assert(all_digits(s.drop_last()));
    } else {
        assert(s.take(k) =~= s);
    }
}

/// Parses an `i64` the way `str::parse` does.
pub fn parse_i64(s: &str) -> (r: Option<i64>)
    ensures
        r == parse_i64_text(s@),
{
    let v = chars_of(s);
    let n = v.len();
    let mut start: usize = 0;
    let mut neg = false;
    if n > 0 && v[0] == '-' {
        start = 1;
        neg = true;
    } else if n > 0 && v[0] == '+' {
        start = 1;
    }
    let ghost body = sign_and_body(v@).1;
    assert(body =~= v@.skip(start as int));
    if start == n {
        return None;
    }
    let mut acc: u128 = 0;
    let mut i: usize = start;
    while i < n
        invariant
            start <= i <= n,
            n == v@.len(),
            v@ == s@,
            body == v@.skip(start as int),
            body == sign_and_body(s@).1,
            neg == sign_and_body(s@).0,
            body.len() > 0,
            all_digits(body.take(i - start)),
            acc == digits_value(body.take(i - start)),
            acc <= 9223372036854775808u128,
        decreases n - i,
    {
        let c = v[i];
        proof {
            let t = body.take(i - start + 1);
            assert(t.drop_last() =~= body.take(i - start));
            assert(t.last() == c);
        }
        if !('0' <= c && c <= '9') {
            assert(!is_digit(body[i - start]));
            return None;
        }
        let d = (c as u32 - 48) as u128;
        acc = acc * 10 + d;
        i = i + 1;
        assert(all_digits(body.take(i - start)));
        if acc > 9223372036854775808u128 {
            proof {
                if all_digits(body) {
                    lemma_digits_value_grows(body, i - start);
                }
            }
            return None;
        }
    }
    assert(body.take(n - start) =~= body);
    if neg {
        if acc == 9223372036854775808u128 {
            Some(i64::MIN)
        } else {
            Some(-(acc as i64))
        }
    } else {
        if acc == 9223372036854775808u128 {
            None
        } else {
            Some(acc as i64)
        }
    }
}

/// An integer read of a number: itself when it fits in `i64`, the saturated
/// value of a larger one, the truncation of a float.
pub open spec fn number_as_i64(n: JsonNumber) -> i64 {
    match n {
        JsonNumber::PosInt(u) => if u <= i64::MAX as u64 {
            u as i64
        } else {
            i64::MAX
        },
        JsonNumber::NegInt(i) => i,
        JsonNumber::Float(f) => f.truncated,
    }
}

/// The integer read of a number.
pub fn number_to_i64(n: &JsonNumber) -> (r: i64)
    ensures
        r == number_as_i64(*n),
{
    match n {
        JsonNumber::PosInt(u) => {
            if *u <= 9223372036854775807u64 {
                *u as i64
            } else {
                i64::MAX
            }
        },
        JsonNumber::NegInt(i) => *i,
        JsonNumber::Float(f) => f.truncated,
    }
}

/// The integer a driver cell reads as: a number truncated toward zero; a
/// string, trimmed, as an integer, failing that as `decimal`, the truncated
/// value of the decimal number it spells; nothing for anything else. The
/// library parses no floating-point text: `decimal` is the caller's reading
/// of the trimmed string.
pub open spec fn int_reading(v: Option<Json>, decimal: Option<i64>) -> Option<i64> {
    match v {
        Some(Json::Number(n)) => Some(number_as_i64(n)),
        Some(Json::Str(s)) => match parse_i64_text(trim(s@)) {
            Some(i) => Some(i),
            None => decimal,
        },
        _ => None,
    }
}

/// The integer a driver cell reads as, `decimal` being the truncated
/// decimal reading of a string cell's trimmed text.
pub fn int_cell(v: Option<&Json>, decimal: Option<i64>) -> (r: Option<i64>)
    ensures
        r == int_reading(opt_json(v), decimal),
{
    match v {
        Some(Json::Number(n)) => Some(number_to_i64(n)),
        Some(Json::Str(s)) => {
            let t = trimmed(s.as_str());
            match parse_i64(t.as_str()) {
                Some(i) => Some(i),
                None => decimal,
            }
        },
        _ => None,
    }
}

/// A count cell as a number: a number truncated toward zero, a string as
/// `decimal` (the truncated decimal reading of its trimmed text), zero when
/// that fails or for anything else.
pub open spec fn count_reading(v: Option<Json>, decimal: Option<i64>) -> i64 {
    match v {
        Some(Json::Number(n)) => number_as_i64(n),
        Some(Json::Str(_)) => match decimal {
            Some(i) => i,
            None => 0,
        },
        _ => 0,
    }
}

/// A count cell as a number, `decimal` being the truncated decimal reading
/// of a string cell's trimmed text.
pub fn count_cell(v: Option<&Json>, decimal: Option<i64>) -> (r: i64)
    ensures
        r == count_reading(opt_json(v), decimal),
{
    match v {
        Some(Json::Number(n)) => number_to_i64(n),
        Some(Json::Str(_)) => match decimal {
            Some(i) => i,
            None => 0,
        },
        _ => 0,
    }
}

/// The integer a SQLite pragma cell reads as: an integer number, or the
/// trimmed text parsed as an integer; nothing for anything else.
pub open spec fn sqlite_int_reading(v: Option<Json>) -> Option<i64> {
    match v {
        Some(Json::Number(JsonNumber::PosInt(u))) => if u <= i64::MAX as u64 {
            Some(u as i64)
        } else {
            None
        },
        Some(Json::Number(JsonNumber::NegInt(i))) => Some(i),
        Some(Json::Str(s)) => parse_i64_text(trim(s@)),
        _ => None,
    }
}

/// The integer a SQLite pragma cell reads as.
pub fn sqlite_int(v: Option<&Json>) -> (r: Option<i64>)
    ensures
        r == sqlite_int_reading(opt_json(v)),
{
    match v {
        Some(Json::Number(JsonNumber::PosInt(u))) => {
            if *u <= 9223372036854775807u64 {
                Some(*u as i64)
            } else {
                None
            }
        },
        Some(Json::Number(JsonNumber::NegInt(i))) => Some(*i),
        Some(Json::Str(s)) => {
            let t = trimmed(s.as_str());
            parse_i64(t.as_str())
        },
        _ => None,
    }
}

} // verus!
