use ambry::json::{Json, JsonNumber};
use ambry::pgbinary::{decode_cell, decode_fixed, decoded_or_text, CellKind, FixedKind};

fn int_of(v: Option<Json>) -> Option<i128> {
    match v {
        Some(Json::Number(JsonNumber::PosInt(u))) => Some(u as i128),
        Some(Json::Number(JsonNumber::NegInt(i))) => Some(i as i128),
        _ => None,
    }
}

fn str_of(v: Option<Json>) -> Option<String> {
    match v {
        Some(Json::Str(s)) => Some(s),
        _ => None,
    }
}

#[test]
fn booleans() {
    assert!(matches!(decode_fixed(FixedKind::Bool, &[1]), Some(Json::Bool(true))));
    assert!(matches!(decode_fixed(FixedKind::Bool, &[7]), Some(Json::Bool(true))));
    assert!(matches!(decode_fixed(FixedKind::Bool, &[0]), Some(Json::Bool(false))));
    assert!(decode_fixed(FixedKind::Bool, &[]).is_none());
    assert!(decode_fixed(FixedKind::Bool, &[0, 1]).is_none());
}

#[test]
fn big_endian_integers() {
    assert_eq!(int_of(decode_fixed(FixedKind::Int2, &[0xff, 0xfe])), Some(-2));
    assert_eq!(int_of(decode_fixed(FixedKind::Int2, &[0x7f, 0xff])), Some(32767));
    assert_eq!(int_of(decode_fixed(FixedKind::Int2, &[0x80, 0x00])), Some(-32768));
    assert_eq!(int_of(decode_fixed(FixedKind::Int4, &[0, 0, 1, 0])), Some(256));
    assert_eq!(int_of(decode_fixed(FixedKind::Int4, &[0x80, 0, 0, 0])), Some(i32::MIN as i128));
    assert_eq!(
        int_of(decode_fixed(FixedKind::Int8, &i64::MIN.to_be_bytes())),
        Some(i64::MIN as i128)
    );
    assert_eq!(
        int_of(decode_fixed(FixedKind::Int8, &1234567890123i64.to_be_bytes())),
        Some(1234567890123)
    );
    assert_eq!(int_of(decode_fixed(FixedKind::Int8, &(-1i64).to_be_bytes())), Some(-1));
    assert_eq!(int_of(decode_fixed(FixedKind::Oid, &[0xff; 4])), Some(4294967295));
    assert!(decode_fixed(FixedKind::Int4, &[0, 0, 1]).is_none());
    assert!(decode_fixed(FixedKind::Int8, &[0; 4]).is_none());
}

#[test]
fn uuids_are_hyphenated_lowercase() {
    let bytes = [
        0x67, 0xe5, 0x50, 0x44, 0x10, 0xb1, 0x42, 0x6f, 0x92, 0x47, 0xbb, 0x68, 0x0e, 0x5f, 0xe0,
        0xc8,
    ];
    assert_eq!(
        str_of(decode_fixed(FixedKind::Uuid, &bytes)),
        Some("67e55044-10b1-426f-9247-bb680e5fe0c8".to_string())
    );
    assert!(decode_fixed(FixedKind::Uuid, &bytes[..15]).is_none());
}

#[test]
fn temporal_cells() {
    assert_eq!(
        str_of(decode_cell(CellKind::Timestamp, &0i64.to_be_bytes())),
        Some("2000-01-01T00:00:00.000".to_string())
    );
    assert_eq!(
        str_of(decode_cell(CellKind::Timestamp, &86_400_123_000i64.to_be_bytes())),
        Some("2000-01-02T00:00:00.123".to_string())
    );
    assert_eq!(
        str_of(decode_cell(CellKind::TimestampTz, &(-1_000_000i64).to_be_bytes())),
        Some("1999-12-31T23:59:59.000Z".to_string())
    );
    assert_eq!(
        str_of(decode_cell(CellKind::Date, &31i32.to_be_bytes())),
        Some("2000-02-01".to_string())
    );
    assert_eq!(
        str_of(decode_cell(CellKind::Time, &3_723_000_000i64.to_be_bytes())),
        Some("01:02:03".to_string())
    );
    assert_eq!(
        str_of(decode_cell(CellKind::Time, &1_500_000i64.to_be_bytes())),
        Some("00:00:01.500".to_string())
    );
    assert!(decode_cell(CellKind::Date, &[1, 2]).is_none());
}

#[test]
fn bytea_and_fallback_text() {
    assert_eq!(str_of(decode_cell(CellKind::Bytea, b"hi")), Some("hi".to_string()));
    assert_eq!(
        str_of(decode_cell(CellKind::Bytea, &[0x61, 0xff, 0x62])),
        Some("a\u{fffd}b".to_string())
    );
    assert!(matches!(decoded_or_text(None, b"x"), Json::Str(s) if s == "x"));
    assert!(matches!(decoded_or_text(Some(Json::Null), b"x"), Json::Null));
}

#[test]
fn text_cells_are_strict_utf8() {
    assert_eq!(str_of(decode_cell(CellKind::Text, b"caf\xc3\xa9")), Some("café".to_string()));
    assert!(decode_cell(CellKind::Text, &[0x61, 0xff]).is_none());
}
