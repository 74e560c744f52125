//! Splitting a script into statements: the text is cut wherever a `;` is
//! followed by optional whitespace and a line break, or by whitespace up to
//! the end; the pieces are trimmed and the empty ones dropped. Semicolons
//! inside string literals are not protected.

use vstd::prelude::*;

use crate::text::{lemma_trim_idempotent, trim, trimmed};

verus! {

broadcast use vstd::string::group_string_axioms;

/// The separator of statements: a `;` with optional whitespace and a line
/// break after it, or a `;` with only whitespace up to the end of the text.
pub const STATEMENT_SEPARATOR: &'static str = ";\\s*\\n|;\\s*$";

/// The pieces that splitting `text` at the matches of the regular
/// expression `pattern` gives (`Regex::split`), or `None` when `pattern` is
/// not a valid regular expression.
pub uninterp spec fn regex_split_of(pattern: Seq<char>, text: Seq<char>) -> Option<Seq<Seq<char>>>;

/// The views of an optional list of strings.
pub open spec fn strings_view(r: Option<Vec<String>>) -> Option<Seq<Seq<char>>> {
    match r {
        Some(v) => Some(v@.map_values(|s: String| s@)),
        None => None,
    }
}

/// Compiles `pattern` (`Regex::new`) and splits `text` at its matches
/// (`Regex::split`), returning the pieces in order; `None` when the pattern
/// does not compile. The contract names the pieces and states nothing more
/// of them.
#[verifier::external_body]
fn regex_split(pattern: &str, text: &str) -> (r: Option<Vec<String>>)
    ensures
        strings_view(r) == regex_split_of(pattern@, text@),
{
    match regex::Regex::new(pattern) {
        Ok(re) => Some(re.split(text).map(String::from).collect()),
        Err(_) => None,
    }
}

/// The trimmed, non-empty pieces, in order.
pub open spec fn statements_of(pieces: Seq<Seq<char>>) -> Seq<Seq<char>>
    decreases pieces.len(),
{
    if pieces.len() == 0 {
        Seq::empty()
    } else {
        let head = statements_of(pieces.drop_last());
        let t = trim(pieces.last());
        if t.len() == 0 {
            head
        } else {
            head.push(t)
        }
    }
}

proof fn lemma_statements_trimmed(pieces: Seq<Seq<char>>)
    ensures
        forall|i: int|
            0 <= i < statements_of(pieces).len() ==> #[trigger] statements_of(pieces)[i].len()
                > 0 && trim(statements_of(pieces)[i]) == statements_of(pieces)[i],
    decreases pieces.len(),
{
    if pieces.len() > 0 {
        let head = statements_of(pieces.drop_last());
        lemma_statements_trimmed(pieces.drop_last());
        lemma_trim_idempotent(pieces.last());
        let all = statements_of(pieces);
        assert forall|i: int| 0 <= i < all.len() implies #[trigger] all[i].len() > 0 && trim(
            all[i],
        ) == all[i] by {
            if i < head.len() {
                assert(all[i] == head[i]);
                assert(head[i].len() > 0);
            }
        }
    }
}

/// Trims every piece and drops the empty ones, keeping the order. Every
/// statement returned is non-empty and has no whitespace at either end.
pub fn statements_from_pieces(pieces: Vec<String>) -> (r: Vec<String>)
    ensures
        r@.map_values(|s: String| s@) == statements_of(pieces@.map_values(|s: String| s@)),
        forall|i: int|
            0 <= i < r@.len() ==> (#[trigger] r@[i])@.len() > 0 && trim(r@[i]@) == r@[i]@,
{
    let ghost views = pieces@.map_values(|s: String| s@);
    let mut out: Vec<String> = Vec::new();
    let mut i: usize = 0;
    while i < pieces.len()
        invariant
            i <= pieces.len(),
            views == pieces@.map_values(|s: String| s@),
            out@.map_values(|s: String| s@) == statements_of(views.take(i as int)),
        decreases pieces.len() - i,
    {
        let t = trimmed(pieces[i].as_str());
        proof {
            let w = views.take(i as int + 1);
            assert(w.drop_last() =~= views.take(i as int));
            assert(w.last() == pieces@[i as int]@);
        }
        let ghost before = out@;
        if !t.as_str().is_empty() {
            out.push(t);
            assert(out@.map_values(|s: String| s@) =~= before.map_values(|s: String| s@).push(
                trim(pieces@[i as int]@),
            ));
        }
        i = i + 1;
    }
    assert(views.take(pieces.len() as int) =~= views);
    proof {
        lemma_statements_trimmed(views);
        assert forall|i: int| 0 <= i < out@.len() implies (#[trigger] out@[i])@.len() > 0 && trim(
            out@[i]@,
        ) == out@[i]@ by {
            assert(out@.map_values(|s: String| s@)[i] == out@[i]@);
        }
    }
    out
}

/// The statements of a script: split at [`STATEMENT_SEPARATOR`], trimmed,
/// empty pieces dropped. Yields nothing when the separator does not compile.
pub fn split_statements(sql: &str) -> (r: Vec<String>)
    ensures
        match regex_split_of(STATEMENT_SEPARATOR@, sql@) {
            Some(pieces) => r@.map_values(|s: String| s@) == statements_of(pieces),
            None => r@.len() == 0,
        },
        forall|i: int|
            0 <= i < r@.len() ==> (#[trigger] r@[i])@.len() > 0 && trim(r@[i]@) == r@[i]@,
{
    match regex_split(STATEMENT_SEPARATOR, sql) {
        Some(pieces) => statements_from_pieces(pieces),
        None => Vec::new(),
    }
}

} // verus!
