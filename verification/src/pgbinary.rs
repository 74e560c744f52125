//! Decoding Postgres cells sent in binary form: booleans, big-endian
//! integers and UUIDs decoded here, timestamps, dates and times through the
//! driver's decoders, and the lossy text of anything else.

use vstd::prelude::*;

use crate::json::{hex_char, hex_digit, Json, JsonNumber};
use crate::text::{opt_text, push_char};

verus! {

broadcast use vstd::string::group_string_axioms;

/// The fixed-width types a cell can be decoded from.
#[derive(Clone, Copy, Debug, PartialEq, Eq, Structural)]
pub enum FixedKind {
    Bool,
    Int2,
    Int4,
    Int8,
    Oid,
    Uuid,
}

/// `256` to the power `n`.
pub open spec fn pow256(n: nat) -> nat
    decreases n,
{
    if n == 0 {
        1
    } else {
        256 * pow256((n - 1) as nat)
    }
}

/// The bytes read as an unsigned big-endian number.
pub open spec fn be_unsigned(b: Seq<u8>) -> nat
    decreases b.len(),
{
    if b.len() == 0 {
        0
    } else {
        be_unsigned(b.drop_last()) * 256 + (b.last() as nat)
    }
}

/// The bytes read as a two's-complement big-endian number.
pub open spec fn be_signed(b: Seq<u8>) -> int {
    let u = be_unsigned(b);
    if 2 * u >= pow256(b.len()) {
        u - pow256(b.len())
    } else {
        u as int
    }
}

/// An integer as a JSON number.
pub open spec fn int_json(i: int) -> Json {
    if i >= 0 {
        Json::Number(JsonNumber::PosInt(i as u64))
    } else {
        Json::Number(JsonNumber::NegInt(i as i64))
    }
}

/// The two lowercase hexadecimal digits of a byte.
pub open spec fn hex_pair(b: u8) -> Seq<char> {
    seq![hex_char((b / 16) as nat), hex_char((b % 16) as nat)]
}

/// The hyphenated text of the first `n` bytes of a UUID: two hexadecimal
/// digits per byte, a hyphen before bytes 4, 6, 8 and 10.
pub open spec fn uuid_prefix(b: Seq<u8>, n: nat) -> Seq<char>
    decreases n,
{
    if n == 0 {
        Seq::empty()
    } else {
        let i = (n - 1) as nat;
        let sep = if i == 4 || i == 6 || i == 8 || i == 10 {
            seq!['-']
        } else {
            Seq::empty()
        };
        uuid_prefix(b, i) + sep + hex_pair(b[i as int])
    }
}

/// `r` is the value of a fixed-width cell: a one-byte boolean (any
/// non-zero byte is true), a 2-, 4- or 8-byte signed integer, a 4-byte
/// unsigned OID, or a 16-byte UUID as lowercase hyphenated text; nothing
/// when the cell has the wrong length.
pub open spec fn fixed_value(kind: FixedKind, raw: Seq<u8>, r: Option<Json>) -> bool {
    let width: nat = match kind {
        FixedKind::Bool => 1,
        FixedKind::Int2 => 2,
        FixedKind::Int4 => 4,
        FixedKind::Int8 => 8,
        FixedKind::Oid => 4,
        FixedKind::Uuid => 16,
    };
    if raw.len() != width {
        r is None
    } else {
        match kind {
            FixedKind::Bool => r == Some(Json::Bool(raw[0] != 0)),
            FixedKind::Oid => r == Some(int_json(be_unsigned(raw) as int)),
            FixedKind::Uuid => r matches Some(Json::Str(s)) && s@ == uuid_prefix(raw, 16),
            _ => r == Some(int_json(be_signed(raw))),
        }
    }
}

proof fn lemma_be_bound(b: Seq<u8>)
    ensures
        be_unsigned(b) < pow256(b.len()),
    decreases b.len(),
{
    if b.len() > 0 {
        lemma_be_bound(b.drop_last());
        let x = be_unsigned(b.drop_last());
        let p = pow256((b.len() - 1) as nat);
        let d = b.last() as nat;
        assert(x * 256 + d < 256 * p) by (nonlinear_arith)
            requires
                x < p,
                d < 256,
        ;
    }
}

/// The bytes `raw[0..n]` as an unsigned big-endian number; `n` is at most 8.
fn read_be(raw: &[u8], n: usize) -> (r: u64)
    requires
        n <= 8,
        n <= raw@.len(),
    ensures
        r as nat == be_unsigned(raw@.subrange(0, n as int)),
{
    let mut acc: u64 = 0;
    let mut i: usize = 0;
    assert(pow256(0) == 1);
    while i < n
        invariant
            i <= n <= 8,
            n <= raw@.len(),
            acc as nat == be_unsigned(raw@.subrange(0, i as int)),
            acc < pow256(i as nat),
        decreases n - i,
    {
        proof {
            assert(raw@.subrange(0, i as int + 1).drop_last() =~= raw@.subrange(0, i as int));
            lemma_pow256_bound(i as nat);
        }
        let b = raw[i];
        assert(acc * 256 + b < 256 * pow256(i as nat)) by (nonlinear_arith)
            requires
                acc < pow256(i as nat),
                b < 256,
        ;
        acc = acc * 256 + b as u64;
        i = i + 1;
    }
    acc
}

proof fn lemma_pow256_bound(n: nat)
    requires
        n < 8,
    ensures
        256 * pow256(n) <= 0x1_0000_0000_0000_0000,
{
    reveal_with_fuel(pow256, 9);
    assert(pow256(8) == 0x1_0000_0000_0000_0000);
    lemma_pow256_mono(n, 7);
}

proof fn lemma_pow256_mono(a: nat, b: nat)
    requires
        a <= b,
    ensures
        pow256(a) <= pow256(b),
    decreases b,
{
    if a < b {
        lemma_pow256_mono(a, (b - 1) as nat);
    }
}

/// An integer as a JSON number.
fn int_value(i: i64) -> (r: Json)
    ensures
        r == int_json(i as int),
{
    if i >= 0 {
        Json::Number(JsonNumber::PosInt(i as u64))
    } else {
        Json::Number(JsonNumber::NegInt(i))
    }
}

/// The text of a UUID's 16 bytes.
fn uuid_string(raw: &[u8]) -> (r: String)
    requires
        raw@.len() == 16,
    ensures
        r@ == uuid_prefix(raw@, 16),
{
    let mut out = String::new();
    let mut i: usize = 0;
    while i < 16
        invariant
            i <= 16,
            raw@.len() == 16,
            out@ == uuid_prefix(raw@, i as nat),
        decreases 16 - i,
    {
        if i == 4 || i == 6 || i == 8 || i == 10 {
            push_char(&mut out, '-');
        }
        let b = raw[i];
        push_char(&mut out, hex_digit((b / 16) as u32));
        push_char(&mut out, hex_digit((b % 16) as u32));
        i = i + 1;
    }
    out
}

/// Decodes a fixed-width binary cell.
pub fn decode_fixed(kind: FixedKind, raw: &[u8]) -> (r: Option<Json>)
    ensures
        fixed_value(kind, raw@, r),
{
    match kind {
        FixedKind::Bool => {
            if raw.len() == 1 {
                Some(Json::Bool(raw[0] != 0))
            } else {
                None
            }
        },
        FixedKind::Int2 | FixedKind::Int4 | FixedKind::Int8 => {
            let n: usize = match kind {
                FixedKind::Int2 => 2,
                FixedKind::Int4 => 4,
                _ => 8,
            };
            if raw.len() != n {
                return None;
            }
            let u = read_be(raw, n);
            proof {
                assert(raw@.subrange(0, n as int) =~= raw@);
                reveal_with_fuel(pow256, 9);
                lemma_be_bound(raw@);
            }
            let v: i64 = if n == 8 {
                if u >= 0x8000_0000_0000_0000u64 {
                    ((u - 0x8000_0000_0000_0000u64) as i64) - 0x7fff_ffff_ffff_ffffi64 - 1
                } else {
                    u as i64
                }
            } else if n == 4 {
                if u >= 0x8000_0000u64 {
                    (u as i64) - 0x1_0000_0000i64
                } else {
                    u as i64
                }
            } else {
                if u >= 0x8000u64 {
                    (u as i64) - 0x1_0000i64
                } else {
                    u as i64
                }
            };
            Some(int_value(v))
        },
        FixedKind::Oid => {
            if raw.len() != 4 {
                return None;
            }
            let u = read_be(raw, 4);
            proof {
                assert(raw@.subrange(0, 4) =~= raw@);
                reveal_with_fuel(pow256, 5);
                lemma_be_bound(raw@);
            }
            Some(int_value(u as i64))
        },
        FixedKind::Uuid => {
            if raw.len() != 16 {
                return None;
            }
            Some(Json::Str(uuid_string(raw)))
        },
    }
}

/// The kinds of cell decoded here: the fixed-width ones, the temporal
/// ones, `bytea`, and plain text.
#[derive(Clone, Copy, Debug, PartialEq, Eq, Structural)]
pub enum CellKind {
    Fixed(FixedKind),
    Timestamp,
    TimestampTz,
    Date,
    Time,
    Bytea,
    Text,
}

/// How a `timestamp` cell is written: `2024-01-05T09:30:07.120`.
pub const TIMESTAMP_FORMAT: &'static str = "%Y-%m-%dT%H:%M:%S%.3f";

/// How a `timestamptz` cell is written, in UTC: `2024-01-05T09:30:07.120Z`.
pub const TIMESTAMPTZ_FORMAT: &'static str = "%Y-%m-%dT%H:%M:%S%.3fZ";

/// How a `date` cell is written: `2024-01-05`.
pub const DATE_FORMAT: &'static str = "%Y-%m-%d";

/// How a `time` cell is written: `09:30:07`, with the fraction of a second
/// only when there is one.
pub const TIME_FORMAT: &'static str = "%H:%M:%S%.f";

/// The text of a `timestamp` cell written with the `chrono` format `fmt`,
/// or `None` when the driver cannot decode the cell.
pub uninterp spec fn timestamp_text_of(raw: Seq<u8>, fmt: Seq<char>) -> Option<Seq<char>>;

/// The text of a `timestamptz` cell, in UTC, written with the `chrono`
/// format `fmt`, or `None` when the driver cannot decode the cell.
pub uninterp spec fn timestamptz_text_of(raw: Seq<u8>, fmt: Seq<char>) -> Option<Seq<char>>;

/// The text of a `date` cell written with the `chrono` format `fmt`, or
/// `None`.
pub uninterp spec fn date_text_of(raw: Seq<u8>, fmt: Seq<char>) -> Option<Seq<char>>;

/// The text of a `time` cell written with the `chrono` format `fmt`, or
/// `None`.
pub uninterp spec fn time_text_of(raw: Seq<u8>, fmt: Seq<char>) -> Option<Seq<char>>;

/// The text of a text cell as the driver decodes it (strict UTF-8), or
/// `None` when the bytes are not valid UTF-8.
pub uninterp spec fn pg_text_of(raw: Seq<u8>) -> Option<Seq<char>>;

/// The bytes decoded as UTF-8, each invalid sequence replaced by U+FFFD.
pub uninterp spec fn utf8_lossy_of(raw: Seq<u8>) -> Seq<char>;

/// `chrono::NaiveDateTime` decoded by the driver (`FromSql`, microseconds
/// since 2000-01-01), written with `format(fmt)`. The contract names the
/// result; it depends on the bytes and the format alone. A format the value
/// cannot be written with makes `to_string` panic, so only the library's
/// timestamp format is admitted.
#[verifier::external_body]
fn timestamp_text(raw: &[u8], fmt: &str) -> (r: Option<String>)
    requires
        fmt@ == TIMESTAMP_FORMAT@,
    ensures
        opt_text(r) == timestamp_text_of(raw@, fmt@),
{
    match <chrono::NaiveDateTime as postgres::types::FromSql>::from_sql(
        &postgres::types::Type::TIMESTAMP,
        raw,
    ) {
        Ok(t) => Some(t.format(fmt).to_string()),
        Err(_) => None,
    }
}

/// `chrono::DateTime<Utc>` decoded by the driver (`FromSql`), written with
/// `format(fmt)`. The contract names the result; it depends on the bytes
/// and the format alone. Only the library's format is admitted, as above.
#[verifier::external_body]
fn timestamptz_text(raw: &[u8], fmt: &str) -> (r: Option<String>)
    requires
        fmt@ == TIMESTAMPTZ_FORMAT@,
    ensures
        opt_text(r) == timestamptz_text_of(raw@, fmt@),
{
    match <chrono::DateTime<chrono::Utc> as postgres::types::FromSql>::from_sql(
        &postgres::types::Type::TIMESTAMPTZ,
        raw,
    ) {
        Ok(t) => Some(t.format(fmt).to_string()),
        Err(_) => None,
    }
}

/// `chrono::NaiveDate` decoded by the driver (`FromSql`, days since
/// 2000-01-01), written with `format(fmt)`. The contract names the result.
/// A date cannot be written with time fields, so only the library's date
/// format is admitted.
#[verifier::external_body]
fn date_text(raw: &[u8], fmt: &str) -> (r: Option<String>)
    requires
        fmt@ == DATE_FORMAT@,
    ensures
        opt_text(r) == date_text_of(raw@, fmt@),
{
    match <chrono::NaiveDate as postgres::types::FromSql>::from_sql(&postgres::types::Type::DATE, raw) {
        Ok(t) => Some(t.format(fmt).to_string()),
        Err(_) => None,
    }
}

/// `chrono::NaiveTime` decoded by the driver (`FromSql`, microseconds since
/// midnight), written with `format(fmt)`. The contract names the result. A
/// time cannot be written with date fields, so only the library's time
/// format is admitted.
#[verifier::external_body]
fn time_text(raw: &[u8], fmt: &str) -> (r: Option<String>)
    requires
        fmt@ == TIME_FORMAT@,
    ensures
        opt_text(r) == time_text_of(raw@, fmt@),
{
    match <chrono::NaiveTime as postgres::types::FromSql>::from_sql(&postgres::types::Type::TIME, raw) {
        Ok(t) => Some(t.format(fmt).to_string()),
        Err(_) => None,
    }
}

/// `String` decoded by the driver (`FromSql` for a `text` cell: the bytes
/// as UTF-8). The contract names the result; it depends on the bytes alone.
#[verifier::external_body]
fn pg_text(raw: &[u8]) -> (r: Option<String>)
    ensures
        opt_text(r) == pg_text_of(raw@),
{
    match <String as postgres::types::FromSql>::from_sql(&postgres::types::Type::TEXT, raw) {
        Ok(t) => Some(t),
        Err(_) => None,
    }
}

/// `String::from_utf8_lossy`. The contract names the result.
#[verifier::external_body]
fn utf8_lossy(raw: &[u8]) -> (r: String)
    ensures
        r@ == utf8_lossy_of(raw@),
{
    String::from_utf8_lossy(raw).into_owned()
}

/// The text of an optional decoded string.
pub open spec fn text_value(t: Option<Seq<char>>, r: Option<Json>) -> bool {
    match t {
        Some(s) => r matches Some(Json::Str(v)) && v@ == s,
        None => r is None,
    }
}

/// `r` is the value of a cell of the given kind: as [`fixed_value`] for
/// the fixed-width kinds, the driver's text of a temporal cell written
/// with the library's format for its kind, the lossy text of a `bytea`
/// cell, and the driver's text of a text cell.
pub open spec fn cell_value(kind: CellKind, raw: Seq<u8>, r: Option<Json>) -> bool {
    match kind {
        CellKind::Fixed(k) => fixed_value(k, raw, r),
        CellKind::Timestamp => text_value(timestamp_text_of(raw, TIMESTAMP_FORMAT@), r),
        CellKind::TimestampTz => text_value(timestamptz_text_of(raw, TIMESTAMPTZ_FORMAT@), r),
        CellKind::Date => text_value(date_text_of(raw, DATE_FORMAT@), r),
        CellKind::Time => text_value(time_text_of(raw, TIME_FORMAT@), r),
        CellKind::Bytea => text_value(Some(utf8_lossy_of(raw)), r),
        CellKind::Text => text_value(pg_text_of(raw), r),
    }
}

/// An optional string as an optional JSON string.
fn text_json(t: Option<String>) -> (r: Option<Json>)
    ensures
        text_value(opt_text(t), r),
{
    match t {
        Some(s) => Some(Json::Str(s)),
        None => None,
    }
}

/// Decodes a cell of one of the kinds handled here.
pub fn decode_cell(kind: CellKind, raw: &[u8]) -> (r: Option<Json>)
    ensures
        cell_value(kind, raw@, r),
{
    match kind {
        CellKind::Fixed(k) => decode_fixed(k, raw),
        CellKind::Timestamp => text_json(timestamp_text(raw, TIMESTAMP_FORMAT)),
        CellKind::TimestampTz => text_json(timestamptz_text(raw, TIMESTAMPTZ_FORMAT)),
        CellKind::Date => text_json(date_text(raw, DATE_FORMAT)),
        CellKind::Time => text_json(time_text(raw, TIME_FORMAT)),
        CellKind::Bytea => Some(Json::Str(utf8_lossy(raw))),
        CellKind::Text => text_json(pg_text(raw)),
    }
}

/// A decoded cell, or, when decoding gave nothing, the cell's bytes as
/// lossy text.
pub fn decoded_or_text(decoded: Option<Json>, raw: &[u8]) -> (r: Json)
    ensures
        match decoded {
            Some(v) => r == v,
            None => r matches Json::Str(s) && s@ == utf8_lossy_of(raw@),
        },
{
    match decoded {
        Some(v) => v,
        None => Json::Str(utf8_lossy(raw)),
    }
}

} // verus!
