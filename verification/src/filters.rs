//! SQL text builders of the data grid: identifier and string quoting and the
//! `WHERE` clause made from the filter panel's conditions.

use vstd::prelude::*;

use crate::text::{
    count_of, law_doubled_runs_are_even, law_undouble_reverses_doubling, runs_even, undouble,
    double_quotes, is_ws, join, push_char, push_doubled, push_str, split_char, split_on, str_eq, trim,
    trimmed, join_strings,
};
use crate::types::FilterCondition;

verus! {

broadcast use vstd::string::group_string_axioms;

// ---------------------------------------------------------------------------
// Specifications
// ---------------------------------------------------------------------------

/// `name` between double quotes, embedded double quotes left as they are.
pub open spec fn quoted_ident(name: Seq<char>) -> Seq<char> {
    seq!['"'] + name + seq!['"']
}

/// `v` between single quotes with every embedded single quote doubled.
pub open spec fn sql_literal(v: Seq<char>) -> Seq<char> {
    seq!['\''] + double_quotes(v, '\'') + seq!['\'']
}

/// The list of an `IN (..)` condition: the value split at commas, each piece
/// trimmed and quoted, joined with `", "`.
pub open spec fn in_list(value: Seq<char>) -> Seq<char> {
    join(split_on(value, ',').map_values(|p: Seq<char>| sql_literal(trim(p))), ", "@)
}

/// The second bound of a `BETWEEN`: the given one, or the text `undefined`
/// when it is missing.
pub open spec fn upper_bound(value2: Option<Seq<char>>) -> Seq<char> {
    match value2 {
        Some(v) => v,
        None => "undefined"@,
    }
}

/// The SQL condition for one filter, or the empty text for an operator that
/// is not one of the known ones. Compared values are always quoted as
/// strings, numbers included.
pub open spec fn condition(
    column: Seq<char>,
    op: Seq<char>,
    value: Seq<char>,
    value2: Option<Seq<char>>,
) -> Seq<char> {
    let col = quoted_ident(column);
    let esc = double_quotes(value, '\'');
    if op == "="@ {
        col + " = '"@ + esc + "'"@
    } else if op == "!="@ {
        col + " != '"@ + esc + "'"@
    } else if op == "contains"@ {
        col + " LIKE '%"@ + esc + "%'"@
    } else if op == "not_contains"@ {
        col + " NOT LIKE '%"@ + esc + "%'"@
    } else if op == "starts_with"@ {
        col + " LIKE '"@ + esc + "%'"@
    } else if op == "ends_with"@ {
        col + " LIKE '%"@ + esc + "'"@
    } else if op == ">"@ {
        col + " > '"@ + esc + "'"@
    } else if op == "<"@ {
        col + " < '"@ + esc + "'"@
    } else if op == ">="@ {
        col + " >= '"@ + esc + "'"@
    } else if op == "<="@ {
        col + " <= '"@ + esc + "'"@
    } else if op == "is_null"@ {
        col + " IS NULL"@
    } else if op == "is_not_null"@ {
        col + " IS NOT NULL"@
    } else if op == "in"@ {
        col + " IN ("@ + in_list(value) + ")"@
    } else if op == "between"@ {
        col + " BETWEEN '"@ + esc + "' AND '"@ + double_quotes(upper_bound(value2), '\'')
            + "'"@
    } else {
        Seq::empty()
    }
}

/// The view of an optional string.
pub open spec fn opt_view(o: Option<String>) -> Option<Seq<char>> {
    match o {
        Some(s) => Some(s@),
        None => None,
    }
}

/// The condition of one filter.
pub open spec fn filter_condition(f: FilterCondition) -> Seq<char> {
    condition(f.column@, f.operator@, f.value@, opt_view(f.value2))
}

/// The non-empty conditions of `fs`, in order.
pub open spec fn conditions(fs: Seq<FilterCondition>) -> Seq<Seq<char>>
    decreases fs.len(),
{
    if fs.len() == 0 {
        Seq::empty()
    } else {
        let head = conditions(fs.drop_last());
        let c = filter_condition(fs.last());
        if c.len() == 0 {
            head
        } else {
            head.push(c)
        }
    }
}

/// How conditions are combined: `" OR "` for the logic `or`, `" AND "` for
/// anything else.
pub open spec fn joiner(logic: Seq<char>) -> Seq<char> {
    if logic == "or"@ {
        " OR "@
    } else {
        " AND "@
    }
}

/// The whole `WHERE ..` prefix, or the empty text when no filter yields a
/// condition.
pub open spec fn where_clause(fs: Seq<FilterCondition>, logic: Seq<char>) -> Seq<char> {
    let cs = conditions(fs);
    if cs.len() == 0 {
        Seq::empty()
    } else {
        "WHERE "@ + join(cs, joiner(logic))
    }
}

// ---------------------------------------------------------------------------
// Executable builders
// ---------------------------------------------------------------------------

/// Wraps an identifier in double quotes, without escaping embedded quotes.
pub fn quote_ident(name: &str) -> (r: String)
    ensures
        r@ == quoted_ident(name@),
{
    let mut out = String::new();
    push_char(&mut out, '"');
    push_str(&mut out, name);
    push_char(&mut out, '"');
    out
}

/// Wraps a value in single quotes, doubling embedded single quotes.
pub fn sql_string(v: &str) -> (r: String)
    ensures
        r@ == sql_literal(v@),
{
    let mut out = String::new();
    push_char(&mut out, '\'');
    push_doubled(&mut out, v, '\'');
    push_char(&mut out, '\'');
    out
}

/// The quoted, trimmed items of an `IN` list, joined with `", "`.
fn in_items(value: &str) -> (r: String)
    ensures
        r@ == in_list(value@),
{
    let pieces = split_char(value, ',');
    let ghost parts = split_on(value@, ',');
    let mut items: Vec<String> = Vec::new();
    let mut i: usize = 0;
    while i < pieces.len()
        invariant
            i <= pieces.len(),
            pieces@.len() == parts.len(),
            forall|k: int| 0 <= k < pieces@.len() ==> #[trigger] pieces@[k]@ == parts[k],
            items@.len() == i,
            forall|k: int|
                0 <= k < i ==> #[trigger] items@[k]@ == sql_literal(trim(parts[k])),
        decreases pieces.len() - i,
    {
        let t = trimmed(pieces[i].as_str());
        let q = sql_string(t.as_str());
        items.push(q);
        i = i + 1;
    }
    let r = join_strings(&items, ", ");
    assert(items@.map_values(|p: String| p@) =~= parts.map_values(
        |p: Seq<char>| sql_literal(trim(p)),
    ));
    r
}

/// Appends `col`, `mid`, the escaped value and `end`.
fn push_compare(out: &mut String, col: &str, mid: &str, value: &str, end: &str)
    ensures
        final(out)@ == old(out)@ + col@ + mid@ + double_quotes(value@, '\'') + end@,
{
    push_str(out, col);
    push_str(out, mid);
    push_doubled(out, value, '\'');
    push_str(out, end);
}

/// The SQL condition for one filter; empty for an unknown operator.
pub fn clause(filter: &FilterCondition) -> (r: String)
    ensures
        r@ == filter_condition(*filter),
{
    let col = quote_ident(filter.column.as_str());
    let op = filter.operator.as_str();
    let value = filter.value.as_str();
    let mut out = String::new();
    if str_eq(op, "=") {
        push_compare(&mut out, col.as_str(), " = '", value, "'");
    } else if str_eq(op, "!=") {
        push_compare(&mut out, col.as_str(), " != '", value, "'");
    } else if str_eq(op, "contains") {
        push_compare(&mut out, col.as_str(), " LIKE '%", value, "%'");
    } else if str_eq(op, "not_contains") {
        push_compare(&mut out, col.as_str(), " NOT LIKE '%", value, "%'");
    } else if str_eq(op, "starts_with") {
        push_compare(&mut out, col.as_str(), " LIKE '", value, "%'");
    } else if str_eq(op, "ends_with") {
        push_compare(&mut out, col.as_str(), " LIKE '%", value, "'");
    } else if str_eq(op, ">") {
        push_compare(&mut out, col.as_str(), " > '", value, "'");
    } else if str_eq(op, "<") {
        push_compare(&mut out, col.as_str(), " < '", value, "'");
    } else if str_eq(op, ">=") {
        push_compare(&mut out, col.as_str(), " >= '", value, "'");
    } else if str_eq(op, "<=") {
        push_compare(&mut out, col.as_str(), " <= '", value, "'");
    } else if str_eq(op, "is_null") {
        push_str(&mut out, col.as_str());
        push_str(&mut out, " IS NULL");
    } else if str_eq(op, "is_not_null") {
        push_str(&mut out, col.as_str());
        push_str(&mut out, " IS NOT NULL");
    } else if str_eq(op, "in") {
        let items = in_items(value);
        push_str(&mut out, col.as_str());
        push_str(&mut out, " IN (");
        push_str(&mut out, items.as_str());
        push_str(&mut out, ")");
    } else if str_eq(op, "between") {
        push_compare(&mut out, col.as_str(), " BETWEEN '", value, "' AND '");
        match &filter.value2 {
            Some(v2) => {
                push_doubled(&mut out, v2.as_str(), '\'');
            },
            None => {
                push_doubled(&mut out, "undefined", '\'');
            },
        }
        push_str(&mut out, "'");
    }
    out
}

/// The `WHERE ..` prefix of the grid's row query: the conditions of the
/// known operators joined with `OR` when `logic` is `or` and with `AND`
/// otherwise; the empty string when no filter yields a condition.
pub fn build_filter_clause(filters: &[FilterCondition], logic: &str) -> (r: String)
    ensures
        r@ == where_clause(filters@, logic@),
{
    let mut clauses: Vec<String> = Vec::new();
    let mut i: usize = 0;
    while i < filters.len()
        invariant
            i <= filters.len(),
            clauses@.map_values(|c: String| c@) == conditions(filters@.take(i as int)),
        decreases filters.len() - i,
    {
        let c = clause(&filters[i]);
        proof {
            let t = filters@.take(i as int + 1);
            assert(t.drop_last() =~= filters@.take(i as int));
            assert(t.last() == filters@[i as int]);
        }
        let ghost before = clauses@;
        if !c.as_str().is_empty() {
            clauses.push(c);
            assert(clauses@.map_values(|c: String| c@) =~= before.map_values(|c: String| c@).push(
                filter_condition(filters@[i as int]),
            ));
        } else {
            assert(filter_condition(filters@[i as int]).len() == 0);
        }
        i = i + 1;
    }
    assert(filters@.take(filters.len() as int) =~= filters@);
    if clauses.len() == 0 {
        return String::new();
    }
    let joined = if str_eq(logic, "or") {
        join_strings(&clauses, " OR ")
    } else {
        join_strings(&clauses, " AND ")
    };
    let mut out = String::new();
    push_str(&mut out, "WHERE ");
    push_str(&mut out, joined.as_str());
    out
}

// ---------------------------------------------------------------------------
// Laws
// ---------------------------------------------------------------------------

proof fn lemma_doubled_len(s: Seq<char>, q: char)
    ensures
        double_quotes(s, q).len() >= s.len(),
    decreases s.len(),
{
    if s.len() > 0 {
        lemma_doubled_len(s.drop_last(), q);
    }
}

proof fn lemma_doubling_injective(a: Seq<char>, b: Seq<char>, q: char)
    requires
        double_quotes(a, q) == double_quotes(b, q),
    ensures
        a == b,
    decreases a.len() + b.len(),
{
    lemma_doubled_len(a, q);
    lemma_doubled_len(b, q);
    if a.len() == 0 || b.len() == 0 {
        if a.len() > 0 {
            lemma_doubled_len(a.drop_last(), q);
        }
        if b.len() > 0 {
            lemma_doubled_len(b.drop_last(), q);
        }
    } else {
        let da = double_quotes(a.drop_last(), q);
        let db = double_quotes(b.drop_last(), q);
        let d = double_quotes(a, q);
        if a.last() == q {
            assert(d.last() == q);
            if b.last() != q {
                assert(d.last() == b.last());
            }
            assert(da =~= d.subrange(0, d.len() - 2));
            assert(db =~= d.subrange(0, d.len() - 2));
        } else {
            assert(d.last() == a.last());
            if b.last() == q {
                assert(d.last() == q);
            }
            assert(da =~= d.drop_last());
            assert(db =~= d.drop_last());
        }
        lemma_doubling_injective(a.drop_last(), b.drop_last(), q);
        assert(a =~= a.drop_last().push(a.last()));
        assert(b =~= b.drop_last().push(b.last()));
    }
}

/// Quoting keeps values apart: two different values never give the same
/// string literal, and two different names never give the same quoted
/// identifier.
pub proof fn law_quoting_keeps_values_apart(a: Seq<char>, b: Seq<char>)
    ensures
        sql_literal(a) == sql_literal(b) ==> a == b,
        quoted_ident(a) == quoted_ident(b) ==> a == b,
{
    if sql_literal(a) == sql_literal(b) {
        let la = sql_literal(a);
        assert(double_quotes(a, '\'') =~= la.subrange(1, la.len() - 1));
        assert(double_quotes(b, '\'') =~= la.subrange(1, la.len() - 1));
        lemma_doubling_injective(a, b, '\'');
    }
    if quoted_ident(a) == quoted_ident(b) {
        let qa = quoted_ident(a);
        assert(a =~= qa.subrange(1, qa.len() - 1));
        assert(b =~= qa.subrange(1, qa.len() - 1));
    }
}

/// A string literal reads back as its value: dropping the outer quotes and
/// writing each doubled quote once recovers the value; between the outer
/// quotes every run of quotes has even length, so none ends the literal
/// early; and the literal is two characters plus one per quote longer than
/// the value.
pub proof fn law_string_literal_reads_back(v: Seq<char>)
    ensures
        ({
            let lit = sql_literal(v);
            &&& lit.len() >= 2
            &&& lit[0] == '\'' && lit[lit.len() - 1] == '\''
            &&& undouble(lit.subrange(1, lit.len() - 1), '\'') == v
            &&& runs_even(lit.subrange(1, lit.len() - 1), '\'')
            &&& lit.len() == v.len() + 2 + count_of(v, '\'')
        }),
{
    law_undouble_reverses_doubling(v, '\'');
    law_doubled_runs_are_even(v, '\'');
    let lit = sql_literal(v);
    assert(lit.subrange(1, lit.len() - 1) =~= double_quotes(v, '\''));
}

proof fn lemma_doubling_concat(a: Seq<char>, b: Seq<char>, q: char)
    ensures
        double_quotes(a + b, q) == double_quotes(a, q) + double_quotes(b, q),
    decreases b.len(),
{
    if b.len() == 0 {
        assert(a + b =~= a);
        assert(double_quotes(a, q) + double_quotes(b, q) =~= double_quotes(a, q));
    } else {
        let c = a + b;
        assert(c.drop_last() =~= a + b.drop_last());
        assert(c.last() == b.last());
        lemma_doubling_concat(a, b.drop_last(), q);
        if b.last() == q {
            assert(double_quotes(a, q) + double_quotes(b, q) =~= double_quotes(a, q)
                + double_quotes(b.drop_last(), q) + seq![q, q]);
            assert(double_quotes(c, q) =~= double_quotes(a, q) + double_quotes(b.drop_last(), q)
                + seq![q, q]);
        } else {
            assert(double_quotes(a, q) + double_quotes(b, q) =~= (double_quotes(a, q)
                + double_quotes(b.drop_last(), q)).push(b.last()));
        }
    }
}

proof fn lemma_percent_literal(v: Seq<char>)
    ensures
        sql_literal(seq!['%'] + v + seq!['%']) == "'%"@ + double_quotes(v, '\'') + "%'"@,
        sql_literal(v + seq!['%']) == "'"@ + double_quotes(v, '\'') + "%'"@,
        sql_literal(seq!['%'] + v) == "'%"@ + double_quotes(v, '\'') + "'"@,
        sql_literal(v) == "'"@ + double_quotes(v, '\'') + "'"@,
{
    let p = seq!['%'];
    reveal_strlit("'%");
    reveal_strlit("%'");
    reveal_strlit("'");
    reveal_with_fuel(double_quotes, 2);
    assert(double_quotes(p, '\'') =~= p) by {
        assert(p.drop_last() =~= Seq::<char>::empty());
    }
    lemma_doubling_concat(p, v, '\'');
    lemma_doubling_concat(p + v, p, '\'');
    lemma_doubling_concat(v, p, '\'');
    assert(sql_literal(p + v + p) =~= "'%"@ + double_quotes(v, '\'') + "%'"@);
    assert(sql_literal(v + p) =~= "'"@ + double_quotes(v, '\'') + "%'"@);
    assert(sql_literal(p + v) =~= "'%"@ + double_quotes(v, '\'') + "'"@);
    assert(sql_literal(v) =~= "'"@ + double_quotes(v, '\'') + "'"@);
}

/// Every compared value of a filter condition is written as an SQL string
/// literal (see [`law_string_literal_reads_back`]): the column, the
/// operator's keyword and the literal of the value, with the `LIKE`
/// patterns' `%` inside the literal; `BETWEEN` writes both bounds as
/// literals. So no value, quotes and all, ever ends its literal early.
pub proof fn law_filter_values_are_literals(
    column: Seq<char>,
    value: Seq<char>,
    value2: Option<Seq<char>>,
)
    ensures
        condition(column, "="@, value, value2) == quoted_ident(column) + " = "@ + sql_literal(value),
        condition(column, "!="@, value, value2) == quoted_ident(column) + " != "@ + sql_literal(
            value,
        ),
        condition(column, ">"@, value, value2) == quoted_ident(column) + " > "@ + sql_literal(value),
        condition(column, "<"@, value, value2) == quoted_ident(column) + " < "@ + sql_literal(value),
        condition(column, ">="@, value, value2) == quoted_ident(column) + " >= "@ + sql_literal(
            value,
        ),
        condition(column, "<="@, value, value2) == quoted_ident(column) + " <= "@ + sql_literal(
            value,
        ),
        condition(column, "contains"@, value, value2) == quoted_ident(column) + " LIKE "@
            + sql_literal(seq!['%'] + value + seq!['%']),
        condition(column, "not_contains"@, value, value2) == quoted_ident(column) + " NOT LIKE "@
            + sql_literal(seq!['%'] + value + seq!['%']),
        condition(column, "starts_with"@, value, value2) == quoted_ident(column) + " LIKE "@
            + sql_literal(value + seq!['%']),
        condition(column, "ends_with"@, value, value2) == quoted_ident(column) + " LIKE "@
            + sql_literal(seq!['%'] + value),
        condition(column, "between"@, value, value2) == quoted_ident(column) + " BETWEEN "@
            + sql_literal(value) + " AND "@ + sql_literal(upper_bound(value2)),
{
    lemma_percent_literal(value);
    lemma_percent_literal(upper_bound(value2));
    let col = quoted_ident(column);
    let lit = sql_literal(value);
    assert(condition(column, "="@, value, value2) =~= col + " = "@ + lit) by {
        reveal_strlit("=");
        reveal_strlit(" = '");
        reveal_strlit(" = ");
        reveal_strlit("'");
        reveal_strlit("'%");
        reveal_strlit("%'");
    }
    assert(condition(column, "!="@, value, value2) =~= col + " != "@ + lit) by {
        reveal_strlit("!=");
        reveal_strlit("=");
        assert("!="@.len() != "="@.len());
        reveal_strlit(" != '");
        reveal_strlit(" != ");
        reveal_strlit("'");
        reveal_strlit("'%");
        reveal_strlit("%'");
    }
    assert(condition(column, "contains"@, value, value2) =~= col + " LIKE "@ + sql_literal(seq!['%'] + value + seq!['%'])) by {
        reveal_strlit("contains");
        reveal_strlit("=");
        assert("contains"@.len() != "="@.len());
        reveal_strlit("!=");
        assert("contains"@.len() != "!="@.len());
        reveal_strlit(" LIKE '%");
        reveal_strlit(" LIKE ");
        reveal_strlit("%'");
        reveal_strlit("'");
        reveal_strlit("'%");
        reveal_strlit("%'");
    }
    assert(condition(column, "not_contains"@, value, value2) =~= col + " NOT LIKE "@ + sql_literal(seq!['%'] + value + seq!['%'])) by {
        reveal_strlit("not_contains");
        reveal_strlit("=");
        assert("not_contains"@.len() != "="@.len());
        reveal_strlit("!=");
        assert("not_contains"@.len() != "!="@.len());
        reveal_strlit("contains");
        assert("not_contains"@.len() != "contains"@.len());
        reveal_strlit(" NOT LIKE '%");
        reveal_strlit(" NOT LIKE ");
        reveal_strlit("%'");
        reveal_strlit("'");
        reveal_strlit("'%");
        reveal_strlit("%'");
    }
    assert(condition(column, "starts_with"@, value, value2) =~= col + " LIKE "@ + sql_literal(value + seq!['%'])) by {
        reveal_strlit("starts_with");
        reveal_strlit("=");
        assert("starts_with"@.len() != "="@.len());
        reveal_strlit("!=");
        assert("starts_with"@.len() != "!="@.len());
        reveal_strlit("contains");
        assert("starts_with"@.len() != "contains"@.len());
        reveal_strlit("not_contains");
        assert("starts_with"@.len() != "not_contains"@.len());
        reveal_strlit(" LIKE '");
        reveal_strlit(" LIKE ");
        reveal_strlit("%'");
        reveal_strlit("'");
        reveal_strlit("'%");
        reveal_strlit("%'");
    }
    assert(condition(column, "ends_with"@, value, value2) =~= col + " LIKE "@ + sql_literal(seq!['%'] + value)) by {
        reveal_strlit("ends_with");
        reveal_strlit("=");
        assert("ends_with"@.len() != "="@.len());
        reveal_strlit("!=");
        assert("ends_with"@.len() != "!="@.len());
        reveal_strlit("contains");
        assert("ends_with"@.len() != "contains"@.len());
        reveal_strlit("not_contains");
        assert("ends_with"@.len() != "not_contains"@.len());
        reveal_strlit("starts_with");
        assert("ends_with"@.len() != "starts_with"@.len());
        reveal_strlit(" LIKE '%");
        reveal_strlit(" LIKE ");
        reveal_strlit("'");
        reveal_strlit("'");
        reveal_strlit("'%");
        reveal_strlit("%'");
    }
    assert(condition(column, ">"@, value, value2) =~= col + " > "@ + lit) by {
        reveal_strlit(">");
        reveal_strlit("=");
        assert(">"@[0] != "="@[0]);
        reveal_strlit("!=");
        assert(">"@.len() != "!="@.len());
        reveal_strlit("contains");
        assert(">"@.len() != "contains"@.len());
        reveal_strlit("not_contains");
        assert(">"@.len() != "not_contains"@.len());
        reveal_strlit("starts_with");
        assert(">"@.len() != "starts_with"@.len());
        reveal_strlit("ends_with");
        assert(">"@.len() != "ends_with"@.len());
        reveal_strlit(" > '");
        reveal_strlit(" > ");
        reveal_strlit("'");
        reveal_strlit("'%");
        reveal_strlit("%'");
    }
    assert(condition(column, "<"@, value, value2) =~= col + " < "@ + lit) by {
        reveal_strlit("<");
        reveal_strlit("=");
        assert("<"@[0] != "="@[0]);
        reveal_strlit("!=");
        assert("<"@.len() != "!="@.len());
        reveal_strlit("contains");
        assert("<"@.len() != "contains"@.len());
        reveal_strlit("not_contains");
        assert("<"@.len() != "not_contains"@.len());
        reveal_strlit("starts_with");
        assert("<"@.len() != "starts_with"@.len());
        reveal_strlit("ends_with");
        assert("<"@.len() != "ends_with"@.len());
        reveal_strlit(">");
        assert("<"@[0] != ">"@[0]);
        reveal_strlit(" < '");
        reveal_strlit(" < ");
        reveal_strlit("'");
        reveal_strlit("'%");
        reveal_strlit("%'");
    }
    assert(condition(column, ">="@, value, value2) =~= col + " >= "@ + lit) by {
        reveal_strlit(">=");
        reveal_strlit("=");
        assert(">="@.len() != "="@.len());
        reveal_strlit("!=");
        assert(">="@[0] != "!="@[0]);
        reveal_strlit("contains");
        assert(">="@.len() != "contains"@.len());
        reveal_strlit("not_contains");
        assert(">="@.len() != "not_contains"@.len());
        reveal_strlit("starts_with");
        assert(">="@.len() != "starts_with"@.len());
        reveal_strlit("ends_with");
        assert(">="@.len() != "ends_with"@.len());
        reveal_strlit(">");
        assert(">="@.len() != ">"@.len());
        reveal_strlit("<");
        assert(">="@.len() != "<"@.len());
        reveal_strlit(" >= '");
        reveal_strlit(" >= ");
        reveal_strlit("'");
        reveal_strlit("'%");
        reveal_strlit("%'");
    }
    assert(condition(column, "<="@, value, value2) =~= col + " <= "@ + lit) by {
        reveal_strlit("<=");
        reveal_strlit("=");
        assert("<="@.len() != "="@.len());
        reveal_strlit("!=");
        assert("<="@[0] != "!="@[0]);
        reveal_strlit("contains");
        assert("<="@.len() != "contains"@.len());
        reveal_strlit("not_contains");
        assert("<="@.len() != "not_contains"@.len());
        reveal_strlit("starts_with");
        assert("<="@.len() != "starts_with"@.len());
        reveal_strlit("ends_with");
        assert("<="@.len() != "ends_with"@.len());
        reveal_strlit(">");
        assert("<="@.len() != ">"@.len());
        reveal_strlit("<");
        assert("<="@.len() != "<"@.len());
        reveal_strlit(">=");
        assert("<="@[0] != ">="@[0]);
        reveal_strlit(" <= '");
        reveal_strlit(" <= ");
        reveal_strlit("'");
        reveal_strlit("'%");
        reveal_strlit("%'");
    }
    assert(condition(column, "between"@, value, value2) =~= col + " BETWEEN "@ + lit + " AND "@ + sql_literal(upper_bound(value2))) by {
        reveal_strlit("between");
        reveal_strlit("=");
        assert("between"@.len() != "="@.len());
        reveal_strlit("!=");
        assert("between"@.len() != "!="@.len());
        reveal_strlit("contains");
        assert("between"@.len() != "contains"@.len());
        reveal_strlit("not_contains");
        assert("between"@.len() != "not_contains"@.len());
        reveal_strlit("starts_with");
        assert("between"@.len() != "starts_with"@.len());
        reveal_strlit("ends_with");
        assert("between"@.len() != "ends_with"@.len());
        reveal_strlit(">");
        assert("between"@.len() != ">"@.len());
        reveal_strlit("<");
        assert("between"@.len() != "<"@.len());
        reveal_strlit(">=");
        assert("between"@.len() != ">="@.len());
        reveal_strlit("<=");
        assert("between"@.len() != "<="@.len());
        reveal_strlit("is_null");
        assert("between"@[0] != "is_null"@[0]);
        reveal_strlit("is_not_null");
        assert("between"@.len() != "is_not_null"@.len());
        reveal_strlit("in");
        assert("between"@.len() != "in"@.len());
        reveal_strlit(" BETWEEN '");
        reveal_strlit(" BETWEEN ");
        reveal_strlit("' AND '");
        reveal_strlit(" AND ");
        reveal_strlit("'");
        reveal_strlit("'");
        reveal_strlit("'%");
        reveal_strlit("%'");
    }
}

} // verus!
