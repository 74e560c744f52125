//! The JSON values that driver rows hold, and their compact JSON text.
//!
//! A float is held by the facts that the library reads of it: its compact
//! JSON text, its `Display` text, whether it is zero, and its saturating
//! truncation to `i64`. The conversion from an `f64` fills them in.

use vstd::prelude::*;

use crate::text::{decimal, push_char, push_decimal, push_signed, push_str, signed_decimal};

verus! {

broadcast use {vstd::string::group_string_axioms, vstd::std_specs::vec::group_vec_axioms};

/// What the library reads of a finite `f64` value.
#[derive(Clone, Debug, PartialEq)]
pub struct FloatRepr {
    /// The value as compact JSON writes it (`3.0`, `1e20`).
    pub json_text: String,
    /// The value as `f64`'s `Display` writes it (`3`, `100000000000000000000`).
    pub display_text: String,
    /// The value is zero.
    pub is_zero: bool,
    /// The value truncated toward zero, saturating at the `i64` bounds.
    pub truncated: i64,
}

/// A JSON number: a non-negative integer, a negative integer, or a float.
#[derive(Clone, Debug, PartialEq)]
pub enum JsonNumber {
    PosInt(u64),
    NegInt(i64),
    Float(FloatRepr),
}

/// A JSON value; object members keep their order.
#[derive(Debug)]
pub enum Json {
    Null,
    Bool(bool),
    Number(JsonNumber),
    Str(String),
    Array(Vec<Json>),
    Object(Vec<(String, Json)>),
}

/// A row as the drivers return it: column name and value, in column order.
pub type Row = Vec<(String, Json)>;

// ---------------------------------------------------------------------------
// Compact JSON text
// ---------------------------------------------------------------------------

/// The lowercase hexadecimal digit for `d < 16`.
pub open spec fn hex_char(d: nat) -> char {
    if d < 10 {
        ((d + 48) as char)
    } else {
        ((d - 10 + 97) as char)
    }
}

/// The escaped form of one character inside a JSON string.
pub open spec fn escape_char(c: char) -> Seq<char> {
    let u = c as u32;
    if c == '"' {
        seq!['\\', '"']
    } else if c == '\\' {
        seq!['\\', '\\']
    } else if u == 0x08 {
        seq!['\\', 'b']
    } else if u == 0x0c {
        seq!['\\', 'f']
    } else if c == '\n' {
        seq!['\\', 'n']
    } else if c == '\r' {
        seq!['\\', 'r']
    } else if c == '\t' {
        seq!['\\', 't']
    } else if u < 0x20 {
        seq!['\\', 'u', '0', '0', hex_char((u / 16) as nat), hex_char((u % 16) as nat)]
    } else {
        seq![c]
    }
}

/// The characters of `s` escaped for a JSON string.
pub open spec fn escape_text(s: Seq<char>) -> Seq<char>
    decreases s.len(),
{
    if s.len() == 0 {
        Seq::empty()
    } else {
        escape_text(s.drop_last()) + escape_char(s.last())
    }
}

/// `s` as a JSON string literal.
pub open spec fn string_text(s: Seq<char>) -> Seq<char> {
    seq!['"'] + escape_text(s) + seq!['"']
}

/// The value of a hexadecimal digit (either case), 0 for anything else.
pub open spec fn hex_value(c: char) -> nat {
    if '0' <= c && c <= '9' {
        ((c as u32) - 48) as nat
    } else if 'a' <= c && c <= 'f' {
        ((c as u32) - 97 + 10) as nat
    } else if 'A' <= c && c <= 'F' {
        ((c as u32) - 65 + 10) as nat
    } else {
        0
    }
}

/// The characters a JSON string body stands for: each escape (`\"`, `\\`,
/// `\b`, `\f`, `\n`, `\r`, `\t`, `\uXXXX`) read as the character it
/// names, every other character as itself. This is how a JSON parser reads
/// the text between a string's quotes.
pub open spec fn unescape(t: Seq<char>) -> Seq<char>
    decreases t.len(),
{
    if t.len() == 0 {
        Seq::empty()
    } else if t[0] == '\\' && t.len() >= 2 && t[1] == '"' {
        seq!['"'] + unescape(t.skip(2))
    } else if t[0] == '\\' && t.len() >= 2 && t[1] == '\\' {
        seq!['\\'] + unescape(t.skip(2))
    } else if t[0] == '\\' && t.len() >= 2 && t[1] == 'b' {
        seq![0x08u8 as char] + unescape(t.skip(2))
    } else if t[0] == '\\' && t.len() >= 2 && t[1] == 'f' {
        seq![0x0cu8 as char] + unescape(t.skip(2))
    } else if t[0] == '\\' && t.len() >= 2 && t[1] == 'n' {
        seq!['\n'] + unescape(t.skip(2))
    } else if t[0] == '\\' && t.len() >= 2 && t[1] == 'r' {
        seq!['\r'] + unescape(t.skip(2))
    } else if t[0] == '\\' && t.len() >= 2 && t[1] == 't' {
        seq!['\t'] + unescape(t.skip(2))
    } else if t[0] == '\\' && t.len() >= 6 && t[1] == 'u' {
        seq![
            ((hex_value(t[2]) * 4096 + hex_value(t[3]) * 256 + hex_value(t[4]) * 16 + hex_value(
                t[5],
            )) as u32) as char,
        ] + unescape(t.skip(6))
    } else {
        seq![t[0]] + unescape(t.drop_first())
    }
}

proof fn lemma_unescape_one(c: char, rest: Seq<char>)
    ensures
        unescape(escape_char(c) + rest) == seq![c] + unescape(rest),
{
    let e = escape_char(c);
    let t = e + rest;
    let u = c as u32;
    if e.len() == 1 {
        assert(t[0] == c);
        assert(t.drop_first() =~= rest);
    } else if e.len() == 2 {
        assert(t[0] == e[0] && t[1] == e[1]);
        assert(t.skip(2) =~= rest);
        if u == 0x08 {
            assert(c == (0x08u8 as char));
        } else if u == 0x0c {
            assert(c == (0x0cu8 as char));
        }
    } else {
        assert(t[0] == '\\' && t[1] == 'u' && t[2] == '0' && t[3] == '0');
        assert(t[4] == hex_char((u / 16) as nat) && t[5] == hex_char((u % 16) as nat));
        assert(t.skip(6) =~= rest);
        assert(hex_value(t[2]) == 0 && hex_value(t[3]) == 0);
        assert(hex_value(t[4]) == u / 16);
        assert(hex_value(t[5]) == u % 16);
        assert((hex_value(t[4]) * 16 + hex_value(t[5])) == u);
    }
}

proof fn lemma_unescape_prefix(p: Seq<char>, x: Seq<char>)
    ensures
        unescape(escape_text(p) + x) == p + unescape(x),
    decreases p.len(),
{
    if p.len() == 0 {
        assert(escape_text(p) + x =~= x);
        assert(p + unescape(x) =~= unescape(x));
    } else {
        let q = p.drop_last();
        let c = p.last();
        assert(escape_text(p) + x =~= escape_text(q) + (escape_char(c) + x));
        lemma_unescape_prefix(q, escape_char(c) + x);
        lemma_unescape_one(c, x);
        assert(p =~= q + seq![c]);
        assert(q + (seq![c] + unescape(x)) =~= p + unescape(x));
    }
}

proof fn lemma_escaped_printable(s: Seq<char>)
    ensures
        forall|i: int| 0 <= i < escape_text(s).len() ==> (#[trigger] escape_text(s)[i] as u32) >= 0x20,
    decreases s.len(),
{
    if s.len() > 0 {
        lemma_escaped_printable(s.drop_last());
        let a = escape_text(s.drop_last());
        let e = escape_char(s.last());
        let u = s.last() as u32;
        if u < 0x20 && u != 0x08 && u != 0x0c && s.last() != '\n' && s.last() != '\r' && s.last()
            != '\t' {
            assert(hex_char((u / 16) as nat) as u32 >= 0x30);
            assert(hex_char((u % 16) as nat) as u32 >= 0x30);
        }
        assert forall|i: int| 0 <= i < escape_text(s).len() implies (#[trigger] escape_text(s)[i] as u32)
            >= 0x20 by {
            if i < a.len() {
                assert(escape_text(s)[i] == a[i]);
            } else {
                assert(escape_text(s)[i] == e[i - a.len()]);
            }
        }
    }
}

/// Every JSON string the library writes is valid and reads back: it is
/// quoted, no character below U+0020 stands unescaped inside it, and a
/// JSON parser's reading of its body gives back the original text.
pub proof fn law_json_strings_read_back(s: Seq<char>)
    ensures
        ({
            let t = string_text(s);
            &&& t.len() >= 2 && t[0] == '"' && t[t.len() - 1] == '"'
            &&& forall|i: int| 1 <= i < t.len() - 1 ==> (#[trigger] t[i] as u32) >= 0x20
            &&& unescape(t.subrange(1, t.len() - 1)) == s
        }),
{
    let t = string_text(s);
    let b = escape_text(s);
    lemma_escaped_printable(s);
    assert(t.subrange(1, t.len() - 1) =~= b);
    assert forall|i: int| 1 <= i < t.len() - 1 implies (#[trigger] t[i] as u32) >= 0x20 by {
        assert(t[i] == b[i - 1]);
    }
    lemma_unescape_prefix(s, Seq::empty());
    assert(b + Seq::<char>::empty() =~= b);
    assert(s + unescape(Seq::<char>::empty()) =~= s);
}

/// The compact JSON text of a number.
pub open spec fn number_text(n: JsonNumber) -> Seq<char> {
    match n {
        JsonNumber::PosInt(u) => decimal(u as nat),
        JsonNumber::NegInt(i) => signed_decimal(i as int),
        JsonNumber::Float(f) => f.json_text@,
    }
}

/// The compact JSON text of a value: no whitespace, members and elements
/// separated by commas, keys and strings escaped.
pub open spec fn json_text(v: Json) -> Seq<char>
    decreases v, 0nat,
{
    match v {
        Json::Null => "null"@,
        Json::Bool(b) => if b {
            "true"@
        } else {
            "false"@
        },
        Json::Number(n) => number_text(n),
        Json::Str(s) => string_text(s@),
        Json::Array(items) => seq!['['] + elements_text(items@, items@.len()) + seq![']'],
        Json::Object(members) => seq!['{'] + members_text(members@, members@.len()) + seq!['}'],
    }
}

/// The first `k` elements, comma-separated.
pub open spec fn elements_text(items: Seq<Json>, k: nat) -> Seq<char>
    decreases items, k,
{
    if k == 0 || k > items.len() {
        Seq::empty()
    } else if k == 1 {
        json_text(items[0])
    } else {
        elements_text(items, (k - 1) as nat) + seq![','] + json_text(items[k - 1])
    }
}

/// The first `k` members as `"key":value`, comma-separated.
pub open spec fn members_text(members: Seq<(String, Json)>, k: nat) -> Seq<char>
    decreases members, k,
{
    if k == 0 || k > members.len() {
        Seq::empty()
    } else if k == 1 {
        string_text(members[0].0@) + seq![':'] + json_text(members[0].1)
    } else {
        members_text(members, (k - 1) as nat) + seq![','] + string_text(members[k - 1].0@)
            + seq![':'] + json_text(members[k - 1].1)
    }
}

/// The hexadecimal digit for `d < 16`.
pub(crate) fn hex_digit(d: u32) -> (c: char)
    requires
        d < 16,
    ensures
        c == hex_char(d as nat),
{
    if d < 10 {
        crate::text::char_from_digit(d)
    } else if d == 10 {
        'a'
    } else if d == 11 {
        'b'
    } else if d == 12 {
        'c'
    } else if d == 13 {
        'd'
    } else if d == 14 {
        'e'
    } else {
        'f'
    }
}

/// Appends one character escaped for a JSON string.
fn push_escaped_char(out: &mut String, c: char)
    ensures
        final(out)@ == old(out)@ + escape_char(c),
{
    let u = c as u32;
    if c == '"' {
        push_char(out, '\\');
        push_char(out, '"');
    } else if c == '\\' {
        push_char(out, '\\');
        push_char(out, '\\');
    } else if u == 0x08 {
        push_char(out, '\\');
        push_char(out, 'b');
    } else if u == 0x0c {
        push_char(out, '\\');
        push_char(out, 'f');
    } else if c == '\n' {
        push_char(out, '\\');
        push_char(out, 'n');
    } else if c == '\r' {
        push_char(out, '\\');
        push_char(out, 'r');
    } else if c == '\t' {
        push_char(out, '\\');
        push_char(out, 't');
    } else if u < 0x20 {
        push_char(out, '\\');
        push_char(out, 'u');
        push_char(out, '0');
        push_char(out, '0');
        push_char(out, hex_digit(u / 16));
        push_char(out, hex_digit(u % 16));
    } else {
        push_char(out, c);
    }
    assert(out@ =~= old(out)@ + escape_char(c));
}

/// Appends `s` as a JSON string literal.
pub fn push_string_literal(out: &mut String, s: &str)
    ensures
        final(out)@ == old(out)@ + string_text(s@),
{
    let v = crate::text::chars_of(s);
    let ghost start = out@;
    push_char(out, '"');
    let mut i: usize = 0;
    while i < v.len()
        invariant
            i <= v.len(),
            out@ == start + seq!['"'] + escape_text(v@.take(i as int)),
        decreases v.len() - i,
    {
        proof {
            let t = v@.take(i as int + 1);
            assert(t.drop_last() =~= v@.take(i as int));
            assert(t.last() == v@[i as int]);
        }
        push_escaped_char(out, v[i]);
        i = i + 1;
    }
    assert(v@.take(v.len() as int) =~= v@);
    push_char(out, '"');
}

/// Appends the compact JSON text of a number.
pub fn push_number_text(out: &mut String, n: &JsonNumber)
    ensures
        final(out)@ == old(out)@ + number_text(*n),
{
    match n {
        JsonNumber::PosInt(u) => push_decimal(out, *u),
        JsonNumber::NegInt(i) => push_signed(out, *i),
        JsonNumber::Float(f) => push_str(out, f.json_text.as_str()),
    }
}

/// Appends the compact JSON text of a value.
pub fn push_json_text(out: &mut String, v: &Json)
    ensures
        final(out)@ == old(out)@ + json_text(*v),
    decreases v,
{
    match v {
        Json::Null => push_str(out, "null"),
        Json::Bool(b) => {
            if *b {
                push_str(out, "true");
            } else {
                push_str(out, "false");
            }
        },
        Json::Number(n) => push_number_text(out, n),
        Json::Str(s) => push_string_literal(out, s.as_str()),
        Json::Array(items) => {
            let ghost start = out@;
            push_char(out, '[');
            let mut i: usize = 0;
            while i < items.len()
                invariant
                    i <= items@.len(),
                    *v == Json::Array(*items),
                    out@ == start + seq!['['] + elements_text(items@, i as nat),
                decreases items@.len() - i,
            {
                if i > 0 {
                    push_char(out, ',');
                }
                proof {
                    assert(decreases_to!(*v => (*v)->Array_0));
                    assert(decreases_to!(*items => items[i as int]));
                }
                push_json_text(out, &items[i]);
                i = i + 1;
            }
            push_char(out, ']');
        },
        Json::Object(members) => {
            let ghost start = out@;
            push_char(out, '{');
            let mut i: usize = 0;
            while i < members.len()
                invariant
                    i <= members@.len(),
                    *v == Json::Object(*members),
                    out@ == start + seq!['{'] + members_text(members@, i as nat),
                decreases members@.len() - i,
            {
                if i > 0 {
                    push_char(out, ',');
                }
                let member = &members[i];
                push_string_literal(out, member.0.as_str());
                push_char(out, ':');
                proof {
                    assert(decreases_to!(*v => (*v)->Object_0));
                    assert(decreases_to!(*members => members[i as int]));
                    assert(decreases_to!(members[i as int] => members[i as int].1));
                }
                push_json_text(out, &member.1);
                i = i + 1;
            }
            push_char(out, '}');
        },
    }
}

// ---------------------------------------------------------------------------
// Pretty JSON text
// ---------------------------------------------------------------------------

/// The pretty JSON text of a value whose line starts at indentation `ind`:
/// non-empty arrays and objects put each element or member on a line of its
/// own, indented two spaces deeper, with the closing bracket back at `ind`;
/// empty ones are `[]` and `{}`; members are written `"key": value`.
pub open spec fn pretty_text(v: Json, ind: Seq<char>) -> Seq<char>
    decreases v, 0nat,
{
    match v {
        Json::Array(items) => if items@.len() == 0 {
            "[]"@
        } else {
            seq!['['] + pretty_elements(items@, items@.len(), ind) + seq!['\n'] + ind + seq![']']
        },
        Json::Object(members) => if members@.len() == 0 {
            "{}"@
        } else {
            seq!['{'] + pretty_members(members@, members@.len(), ind) + seq!['\n'] + ind + seq![
                '}',
            ]
        },
        _ => json_text(v),
    }
}

/// The line break before element `k` (1-based): none for the first, a comma
/// for the others.
pub open spec fn item_break(k: nat) -> Seq<char> {
    if k == 1 {
        seq!['\n']
    } else {
        seq![',', '\n']
    }
}

/// The first `k` elements, one per line at `ind` plus two spaces.
pub open spec fn pretty_elements(items: Seq<Json>, k: nat, ind: Seq<char>) -> Seq<char>
    decreases items, k,
{
    if k == 0 || k > items.len() {
        Seq::empty()
    } else {
        pretty_elements(items, (k - 1) as nat, ind) + item_break(k) + ind + seq![' ', ' ']
            + pretty_text(items[k - 1], ind + seq![' ', ' '])
    }
}

/// The first `k` members, one per line at `ind` plus two spaces.
pub open spec fn pretty_members(members: Seq<(String, Json)>, k: nat, ind: Seq<char>) -> Seq<char>
    decreases members, k,
{
    if k == 0 || k > members.len() {
        Seq::empty()
    } else {
        pretty_members(members, (k - 1) as nat, ind) + item_break(k) + ind + seq![' ', ' ']
            + string_text(members[k - 1].0@) + seq![':', ' '] + pretty_text(
            members[k - 1].1,
            ind + seq![' ', ' '],
        )
    }
}

/// The pretty JSON text of a list of rows, each an object.
pub open spec fn pretty_rows_text(rows: Seq<Row>) -> Seq<char> {
    if rows.len() == 0 {
        "[]"@
    } else {
        seq!['['] + pretty_row_list(rows, rows.len()) + seq!['\n', ']']
    }
}

/// The pretty text of a row as an object at indentation `ind`.
pub open spec fn pretty_row(r: Row, ind: Seq<char>) -> Seq<char> {
    if r@.len() == 0 {
        "{}"@
    } else {
        seq!['{'] + pretty_members(r@, r@.len(), ind) + seq!['\n'] + ind + seq!['}']
    }
}

/// The first `k` rows, one per line, indented two spaces.
pub open spec fn pretty_row_list(rows: Seq<Row>, k: nat) -> Seq<char>
    decreases k,
{
    if k == 0 || k > rows.len() {
        Seq::empty()
    } else {
        pretty_row_list(rows, (k - 1) as nat) + item_break(k) + seq![' ', ' '] + pretty_row(
            rows[k - 1],
            seq![' ', ' '],
        )
    }
}

/// Appends the members of an object, one per line.
fn push_pretty_members(out: &mut String, members: &Vec<(String, Json)>, ind: &String)
    ensures
        final(out)@ == old(out)@ + pretty_members(members@, members@.len(), ind@),
    decreases members, 1nat,
{
    let ghost start = out@;
    let mut inner = ind.clone();
    push_str(&mut inner, "  ");
    proof {
        reveal_strlit("  ");
    }
    assert(inner@ =~= ind@ + seq![' ', ' ']);
    let mut i: usize = 0;
    while i < members.len()
        invariant
            i <= members@.len(),
            inner@ == ind@ + seq![' ', ' '],
            out@ == start + pretty_members(members@, i as nat, ind@),
        decreases members@.len() - i,
    {
        if i == 0 {
            push_char(out, '\n');
        } else {
            push_char(out, ',');
            push_char(out, '\n');
        }
        push_str(out, inner.as_str());
        let member = &members[i];
        push_string_literal(out, member.0.as_str());
        push_char(out, ':');
        push_char(out, ' ');
        proof {
            assert(decreases_to!(*members => members[i as int]));
            assert(decreases_to!(members[i as int] => members[i as int].1));
        }
        push_pretty(out, &member.1, &inner);
        i = i + 1;
    }
}

/// Appends the pretty JSON text of a value whose line starts at `ind`.
pub fn push_pretty(out: &mut String, v: &Json, ind: &String)
    ensures
        final(out)@ == old(out)@ + pretty_text(*v, ind@),
    decreases v, 0nat,
{
    match v {
        Json::Array(items) => {
            if items.len() == 0 {
                push_str(out, "[]");
                return;
            }
            let ghost start = out@;
            let mut inner = ind.clone();
            push_str(&mut inner, "  ");
            proof {
                reveal_strlit("  ");
            }
            assert(inner@ =~= ind@ + seq![' ', ' ']);
            push_char(out, '[');
            let mut i: usize = 0;
            while i < items.len()
                invariant
                    i <= items@.len(),
                    *v == Json::Array(*items),
                    inner@ == ind@ + seq![' ', ' '],
                    out@ == start + seq!['['] + pretty_elements(items@, i as nat, ind@),
                decreases items@.len() - i,
            {
                if i == 0 {
                    push_char(out, '\n');
                } else {
                    push_char(out, ',');
                    push_char(out, '\n');
                }
                push_str(out, inner.as_str());
                proof {
                    assert(decreases_to!(*v => (*v)->Array_0));
                    assert(decreases_to!(*items => items[i as int]));
                }
                push_pretty(out, &items[i], &inner);
                i = i + 1;
            }
            push_char(out, '\n');
            push_str(out, ind.as_str());
            push_char(out, ']');
        },
        Json::Object(members) => {
            if members.len() == 0 {
                push_str(out, "{}");
                return;
            }
            push_char(out, '{');
            proof {
                assert(decreases_to!(*v => (*v)->Object_0));
            }
            push_pretty_members(out, members, ind);
            push_char(out, '\n');
            push_str(out, ind.as_str());
            push_char(out, '}');
        },
        _ => push_json_text(out, v),
    }
}

/// Rows as pretty JSON: an array of objects, two-space indentation.
pub fn pretty_rows(rows: &Vec<Row>) -> (r: String)
    ensures
        r@ == pretty_rows_text(rows@),
{
    if rows.len() == 0 {
        return String::from_str("[]");
    }
    let mut out = String::new();
    push_char(&mut out, '[');
    let ind = String::from_str("  ");
    proof {
        reveal_strlit("  ");
    }
    assert(ind@ =~= seq![' ', ' ']);
    let mut i: usize = 0;
    while i < rows.len()
        invariant
            i <= rows@.len(),
            ind@ == seq![' ', ' '],
            out@ == seq!['['] + pretty_row_list(rows@, i as nat),
        decreases rows@.len() - i,
    {
        if i == 0 {
            push_char(&mut out, '\n');
        } else {
            push_char(&mut out, ',');
            push_char(&mut out, '\n');
        }
        push_str(&mut out, ind.as_str());
        let r = &rows[i];
        if r.len() == 0 {
            push_str(&mut out, "{}");
        } else {
            push_char(&mut out, '{');
            push_pretty_members(&mut out, r, &ind);
            push_char(&mut out, '\n');
            push_str(&mut out, ind.as_str());
            push_char(&mut out, '}');
        }
        i = i + 1;
    }
    push_char(&mut out, '\n');
    push_char(&mut out, ']');
    out
}

/// The compact JSON text of a value.
pub fn json_to_text(v: &Json) -> (r: String)
    ensures
        r@ == json_text(*v),
{
    let mut out = String::new();
    push_json_text(&mut out, v);
    out
}

} // verus!
