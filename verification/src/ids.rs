//! Identifiers and timestamps for stored records: random UUIDs and the
//! current time in ISO 8601.

use vstd::prelude::*;

verus! {

broadcast use vstd::string::group_string_axioms;

/// A lowercase hexadecimal digit.
pub open spec fn is_lower_hex(c: char) -> bool {
    ('0' <= c && c <= '9') || ('a' <= c && c <= 'f')
}

/// The hyphenated form of a UUID: 36 characters, hyphens at positions 8,
/// 13, 18 and 23, lowercase hexadecimal digits elsewhere.
pub open spec fn is_hyphenated_uuid(s: Seq<char>) -> bool {
    &&& s.len() == 36
    &&& forall|i: int|
        0 <= i < 36 ==> if i == 8 || i == 13 || i == 18 || i == 23 {
            s[i] == '-'
        } else {
            is_lower_hex(#[trigger] s[i])
        }
}

/// A fresh random (version 4) UUID in lowercase hyphenated form
/// (`Uuid::new_v4` written with `Display`). The contract states the form
/// and the version digit; the value is random.
#[verifier::external_body]
pub fn new_uuid() -> (r: String)
    ensures
        is_hyphenated_uuid(r@),
        r@[14] == '4',
{
    uuid::Uuid::new_v4().to_string()
}

/// How the current time is written: `2024-01-05T09:30:07.120Z`, in UTC.
pub const ISO_FORMAT: &'static str = "%Y-%m-%dT%H:%M:%S%.3fZ";

/// An ASCII decimal digit.
pub open spec fn is_ascii_digit(c: char) -> bool {
    '0' <= c && c <= '9'
}

/// The form of [`ISO_FORMAT`]'s text: it ends in `-MM-DDThh:mm:ss.mmmZ`
/// (twenty characters: separators where shown, digits elsewhere) after a
/// year of at least four characters, which is four digits when the text is
/// 24 characters long (years up to 9999; later years carry a sign and more
/// digits).
pub open spec fn is_iso_utc(s: Seq<char>) -> bool {
    let n = s.len();
    &&& n >= 24
    &&& forall|k: int|
        0 <= k < 20 ==> {
            let c = #[trigger] s[n - 20 + k];
            if k == 0 || k == 3 {
                c == '-'
            } else if k == 6 {
                c == 'T'
            } else if k == 9 || k == 12 {
                c == ':'
            } else if k == 15 {
                c == '.'
            } else if k == 19 {
                c == 'Z'
            } else {
                is_ascii_digit(c)
            }
        }
    &&& n == 24 ==> forall|k: int| 0 <= k < 4 ==> is_ascii_digit(#[trigger] s[k])
}

/// `chrono::Utc::now` written with `format(fmt)`; only [`ISO_FORMAT`] is
/// admitted. The contract states the form of the text; the value depends on
/// the clock. `Utc::now` panics when the system clock reads before 1970,
/// which no argument can rule out.
#[verifier::external_body]
fn utc_now_text(fmt: &str) -> (r: String)
    requires
        fmt@ == ISO_FORMAT@,
    ensures
        is_iso_utc(r@),
{
    chrono::Utc::now().format(fmt).to_string()
}

/// The current UTC time as `YYYY-MM-DDThh:mm:ss.mmmZ`.
pub fn iso_now() -> (r: String)
    ensures
        is_iso_utc(r@),
{
    utc_now_text(ISO_FORMAT)
}

} // verus!
