use pgdecode::column::ColumnValue;
use pgdecode::column::DecodeError;
use pgdecode::column::Decoded;
use pgdecode::column::GenericValue;
use pgdecode::column::TypeKind;
use pgdecode::dispatch::classify;
use pgdecode::dispatch::decode_column;
use pgdecode::dispatch::Strategy;

fn col(is_null: bool, name: &str, kind: TypeKind, bytes: Option<Vec<u8>>) -> ColumnValue {
    ColumnValue { is_null, ty_name: name.to_string(), kind, bytes }
}

fn value(name: &str, bytes: Vec<u8>) -> ColumnValue {
    col(false, name, TypeKind::Base, Some(bytes))
}

const SCALAR_NAMES: [&str; 17] = [
    "CHAR", "VARCHAR", "TEXT", "NAME", "FLOAT4", "FLOAT8", "INT2", "INT4", "INT8", "BOOL",
    "DATE", "TIME", "TIMESTAMP", "TIMESTAMPTZ", "JSON", "JSONB", "BYTEA",
];

#[test]
fn null_yields_null_for_every_recognized_name() {
    for name in SCALAR_NAMES {
        let c = col(true, name, TypeKind::Base, Some(vec![1, 2, 3]));
        assert_eq!(decode_column(&c), Ok(Decoded::Value(GenericValue::Null)));
    }
    let c = col(true, "tsvector", TypeKind::Base, None);
    assert_eq!(decode_column(&c), Ok(Decoded::Value(GenericValue::Null)));
    let c = col(true, "mystery", TypeKind::Other, None);
    assert_eq!(decode_column(&c), Ok(Decoded::Value(GenericValue::Null)));
}

#[test]
fn undecodable_bytes_yield_null_not_an_error() {
    // too short for the expected width, or not the expected shape
    let cases: [(&str, Vec<u8>); 10] = [
        ("TEXT", vec![0xff, 0xfe]),
        ("INT2", vec![1]),
        ("INT4", vec![1, 2]),
        ("INT8", vec![1, 2, 3]),
        ("BOOL", vec![]),
        ("DATE", vec![1, 2]),
        ("TIME", vec![1, 2, 3, 4]),
        ("TIMESTAMP", vec![9]),
        ("TIMESTAMPTZ", vec![9]),
        ("JSON", b"not json".to_vec()),
    ];
    for (name, bytes) in cases {
        assert_eq!(
            decode_column(&value(name, bytes)),
            Ok(Decoded::Value(GenericValue::Null)),
            "type {name}"
        );
    }
    // missing bytes degrade to null too on every recognized name
    for name in SCALAR_NAMES {
        let c = col(false, name, TypeKind::Base, None);
        assert_eq!(decode_column(&c), Ok(Decoded::Value(GenericValue::Null)));
    }
}

#[test]
fn void_yields_null_even_with_decodable_bytes() {
    let c = value("VOID", b"1".to_vec());
    assert_eq!(decode_column(&c), Ok(Decoded::Value(GenericValue::Null)));
}

#[test]
fn enum_member_is_kept_and_non_member_is_null() {
    let kind = TypeKind::Enum(vec!["red".to_string(), "green".to_string(), "blue".to_string()]);
    let c = col(false, "color", kind.clone(), Some(b"green".to_vec()));
    assert_eq!(
        decode_column(&c),
        Ok(Decoded::Value(GenericValue::Text("green".to_string())))
    );
    let c = col(false, "color", kind, Some(b"purple".to_vec()));
    assert_eq!(decode_column(&c), Ok(Decoded::Value(GenericValue::Null)));
}

#[test]
fn enum_without_bytes_propagates_a_decode_error() {
    let kind = TypeKind::Enum(vec!["red".to_string()]);
    let c = col(false, "color", kind, None);
    assert_eq!(decode_column(&c), Err(DecodeError::Decode));
}

#[test]
fn enum_lossy_replacement_character_is_matched() {
    // invalid UTF-8 becomes the replacement character, which is a variant here
    let kind = TypeKind::Enum(vec!["\u{FFFD}".to_string()]);
    let c = col(false, "color", kind, Some(vec![0xff]));
    assert_eq!(
        decode_column(&c),
        Ok(Decoded::Value(GenericValue::Text("\u{FFFD}".to_string())))
    );
}

#[test]
fn unrecognized_name_with_text_bytes_falls_back_to_text() {
    let c = col(false, "mystery", TypeKind::Base, Some(b"hello".to_vec()));
    assert_eq!(
        decode_column(&c),
        Ok(Decoded::Value(GenericValue::Text("hello".to_string())))
    );
}

#[test]
fn unrecognized_name_without_bytes_is_unsupported() {
    let c = col(false, "mystery", TypeKind::Base, None);
    assert_eq!(
        decode_column(&c),
        Err(DecodeError::UnsupportedDatatype("mystery".to_string()))
    );
}

#[test]
fn unrecognized_name_with_invalid_utf8_is_null() {
    let c = col(false, "mystery", TypeKind::Other, Some(vec![0xff, 0x00]));
    assert_eq!(decode_column(&c), Ok(Decoded::Value(GenericValue::Null)));
}

#[test]
fn bytea_becomes_an_array_of_numbers() {
    let c = value("BYTEA", vec![1, 2, 255]);
    assert_eq!(
        decode_column(&c),
        Ok(Decoded::Value(GenericValue::Array(vec![1, 2, 255])))
    );
}

#[test]
fn text_types_decode_utf8_strictly() {
    for name in ["CHAR", "VARCHAR", "TEXT", "NAME"] {
        let c = value(name, "héllo".as_bytes().to_vec());
        assert_eq!(
            decode_column(&c),
            Ok(Decoded::Value(GenericValue::Text("héllo".to_string()))),
            "type {name}"
        );
    }
}

#[test]
fn integers_decode_big_endian_signed() {
    let c = value("INT2", 0x7fffu16.to_be_bytes().to_vec());
    assert_eq!(decode_column(&c), Ok(Decoded::Value(GenericValue::Number(32767))));
    let c = value("INT2", (-2i16).to_be_bytes().to_vec());
    assert_eq!(decode_column(&c), Ok(Decoded::Value(GenericValue::Number(-2))));
    let c = value("INT4", (-123456789i32).to_be_bytes().to_vec());
    assert_eq!(decode_column(&c), Ok(Decoded::Value(GenericValue::Number(-123456789))));
    let c = value("INT8", (-9007199254740993i64).to_be_bytes().to_vec());
    assert_eq!(
        decode_column(&c),
        Ok(Decoded::Value(GenericValue::Number(-9007199254740993)))
    );
}

#[test]
fn booleans_decode_from_one_byte() {
    let c = value("BOOL", vec![1]);
    assert_eq!(decode_column(&c), Ok(Decoded::Value(GenericValue::Boolean(true))));
    let c = value("BOOL", vec![0]);
    assert_eq!(decode_column(&c), Ok(Decoded::Value(GenericValue::Boolean(false))));
}

#[test]
fn dates_decode_as_days_from_the_millennium() {
    let c = value("DATE", 1i32.to_be_bytes().to_vec());
    assert_eq!(
        decode_column(&c),
        Ok(Decoded::Value(GenericValue::Text("2000-01-02".to_string())))
    );
    let c = value("DATE", (-1i32).to_be_bytes().to_vec());
    assert_eq!(
        decode_column(&c),
        Ok(Decoded::Value(GenericValue::Text("1999-12-31".to_string())))
    );
    // far outside the calendar's supported range
    let c = value("DATE", i32::MAX.to_be_bytes().to_vec());
    assert_eq!(decode_column(&c), Ok(Decoded::Value(GenericValue::Null)));
}

#[test]
fn times_decode_as_microseconds_since_midnight() {
    let us: i64 = 3_723_000_004; // 01:02:03.000004
    let expected = (time::Time::MIDNIGHT + time::Duration::microseconds(us)).to_string();
    let c = value("TIME", us.to_be_bytes().to_vec());
    assert_eq!(decode_column(&c), Ok(Decoded::Value(GenericValue::Text(expected))));
}

#[test]
fn timestamps_decode_as_microseconds_since_the_millennium() {
    let us: i64 = 86_400_000_000 + 60_000_000; // 2000-01-02 00:01
    let epoch = time::Date::from_calendar_date(2000, time::Month::January, 1)
        .unwrap()
        .midnight();
    let expected = (epoch + time::Duration::microseconds(us)).to_string();
    let c = value("TIMESTAMP", us.to_be_bytes().to_vec());
    assert_eq!(decode_column(&c), Ok(Decoded::Value(GenericValue::Text(expected))));

    let neg: i64 = -1; // one microsecond before the epoch
    let expected = (epoch + time::Duration::microseconds(neg)).to_string();
    let c = value("TIMESTAMP", neg.to_be_bytes().to_vec());
    assert_eq!(decode_column(&c), Ok(Decoded::Value(GenericValue::Text(expected))));
}

#[test]
fn timestamptz_decodes_as_utc() {
    let us: i64 = 42_000_000;
    let epoch = time::Date::from_calendar_date(2000, time::Month::January, 1)
        .unwrap()
        .midnight()
        .assume_utc();
    let expected = (epoch + time::Duration::microseconds(us)).to_string();
    let c = value("TIMESTAMPTZ", us.to_be_bytes().to_vec());
    assert_eq!(decode_column(&c), Ok(Decoded::Value(GenericValue::Text(expected))));
}

#[test]
fn json_passes_the_parsed_document_through() {
    let payload = br#"{"a": [1, true, "x"]}"#;
    let expected: serde_json::Value = serde_json::from_slice(payload).unwrap();
    let c = value("JSON", payload.to_vec());
    assert_eq!(decode_column(&c), Ok(Decoded::Value(GenericValue::Json(expected))));
}

#[test]
fn jsonb_requires_the_version_byte() {
    let mut bytes = vec![1u8];
    bytes.extend_from_slice(br#"[1, 2]"#);
    let expected: serde_json::Value = serde_json::from_slice(br#"[1, 2]"#).unwrap();
    let c = value("JSONB", bytes);
    assert_eq!(decode_column(&c), Ok(Decoded::Value(GenericValue::Json(expected))));
    // wrong version byte, or no bytes at all: null
    let c = value("JSONB", b"2[1]".to_vec());
    assert_eq!(decode_column(&c), Ok(Decoded::Value(GenericValue::Null)));
    let c = value("JSONB", vec![]);
    assert_eq!(decode_column(&c), Ok(Decoded::Value(GenericValue::Null)));
}

#[test]
fn floats_hand_their_bytes_back() {
    let c = value("FLOAT4", vec![0x3f, 0x80, 0x00, 0x00]);
    assert_eq!(
        decode_column(&c),
        Ok(Decoded::Float4Bytes(vec![0x3f, 0x80, 0x00, 0x00]))
    );
    let c = value("FLOAT8", vec![0; 8]);
    assert_eq!(decode_column(&c), Ok(Decoded::Float8Bytes(vec![0; 8])));
}

#[test]
fn tsvector_column_renders_canonically() {
    let mut bytes = 1u32.to_be_bytes().to_vec();
    bytes.extend_from_slice(b"cat\x00");
    bytes.extend_from_slice(&2u16.to_be_bytes());
    bytes.extend_from_slice(&((3u16 << 14) | 1).to_be_bytes());
    bytes.extend_from_slice(&5u16.to_be_bytes());
    let c = value("tsvector", bytes);
    assert_eq!(
        decode_column(&c),
        Ok(Decoded::Value(GenericValue::Text("'cat':1A,5".to_string())))
    );
}

#[test]
fn malformed_tsvector_yields_null_not_an_error() {
    // declared count exceeds the available bytes
    let c = value("tsvector", 5u32.to_be_bytes().to_vec());
    assert_eq!(decode_column(&c), Ok(Decoded::Value(GenericValue::Null)));
}

#[test]
fn tsvector_without_bytes_propagates_a_decode_error() {
    let c = col(false, "tsvector", TypeKind::Base, None);
    assert_eq!(decode_column(&c), Err(DecodeError::Decode));
}

#[test]
fn classification_is_exact_and_case_sensitive() {
    assert_eq!(classify("INT4"), Strategy::Int4);
    assert_eq!(classify("int4"), Strategy::Fallback);
    assert_eq!(classify("TSVECTOR"), Strategy::Fallback);
    assert_eq!(classify("tsvector"), Strategy::TextSearch);
    assert_eq!(classify("VOID"), Strategy::Void);
    assert_eq!(classify(""), Strategy::Fallback);
}

#[test]
fn domain_and_array_kinds_use_the_generic_fallback() {
    let c = col(false, "mydomain", TypeKind::Domain, Some(b"ok".to_vec()));
    assert_eq!(decode_column(&c), Ok(Decoded::Value(GenericValue::Text("ok".to_string()))));
    let c = col(false, "_int4", TypeKind::Array, None);
    assert_eq!(
        decode_column(&c),
        Err(DecodeError::UnsupportedDatatype("_int4".to_string()))
    );
}
