//! The type-driven decode dispatcher: maps a column's reported type name to a
//! decode strategy, falls back to the structural kind for unrecognized names,
//! and degrades every recognized decode failure to null. Exactly two failure
//! conditions propagate an error: a failed byte extraction on the
//! text-search-vector path or the enum path, and an unrecognized type whose
//! bytes cannot be extracted.

use vstd::prelude::*;
use vstd::slice::slice_subrange;
use vstd::slice::slice_to_vec;
use vstd::utf8::decode_utf8;
use vstd::utf8::valid_utf8;

use crate::column::ColumnModel;
use crate::column::ColumnValue;
use crate::column::Decoded;
use crate::column::DecodedModel;
use crate::column::DecodeError;
use crate::column::ErrorModel;
use crate::column::GenericValue;
use crate::column::KindModel;
use crate::column::TypeKind;
use crate::column::ValueModel;
use crate::json::json_value_of;
use crate::json::parse_json;
use crate::temporal::datetime_text_of;
use crate::temporal::datetime_string;
use crate::temporal::datetime_utc_text_of;
use crate::temporal::datetime_utc_string;
use crate::temporal::euclid_day_rem;
use crate::temporal::julian_date_text_of;
use crate::temporal::julian_date_string;
use crate::temporal::time_of_day_string;
use crate::temporal::time_text_of;
use crate::text::lossy_text_of;
use crate::text::str_eq;
use crate::text::string_from_utf8;
use crate::text::string_from_utf8_lossy;
use crate::tsvector::parse_tsvector;
use crate::tsvector::tsvector_text;
use crate::tsvector::TsVector;
use crate::wire::be_u16_at;
use crate::wire::be_u32_at;
use crate::wire::be_u64_at;
use crate::wire::read_be_u16;
use crate::wire::read_be_u32;
use crate::wire::read_be_u64;

verus! {

/// The decode strategy a type name selects; `Fallback` stands for every
/// unrecognized name and defers to the structural kind.
#[derive(Clone, Copy, Debug, PartialEq, Eq, Structural)]
pub enum Strategy {
    Text,
    Float4,
    Float8,
    Int2,
    Int4,
    Int8,
    Boolean,
    Date,
    Time,
    Timestamp,
    TimestampTz,
    JsonPlain,
    JsonBinary,
    Bytea,
    Void,
    TextSearch,
    Fallback,
}

/// The fixed, case-sensitive table from type name to strategy.
pub open spec fn classify_spec(name: Seq<char>) -> Strategy {
    if name == "CHAR"@ || name == "VARCHAR"@ || name == "TEXT"@ || name == "NAME"@ {
        Strategy::Text
    } else if name == "FLOAT4"@ {
        Strategy::Float4
    } else if name == "FLOAT8"@ {
        Strategy::Float8
    } else if name == "INT2"@ {
        Strategy::Int2
    } else if name == "INT4"@ {
        Strategy::Int4
    } else if name == "INT8"@ {
        Strategy::Int8
    } else if name == "BOOL"@ {
        Strategy::Boolean
    } else if name == "DATE"@ {
        Strategy::Date
    } else if name == "TIME"@ {
        Strategy::Time
    } else if name == "TIMESTAMP"@ {
        Strategy::Timestamp
    } else if name == "TIMESTAMPTZ"@ {
        Strategy::TimestampTz
    } else if name == "JSON"@ {
        Strategy::JsonPlain
    } else if name == "JSONB"@ {
        Strategy::JsonBinary
    } else if name == "BYTEA"@ {
        Strategy::Bytea
    } else if name == "VOID"@ {
        Strategy::Void
    } else if name == "tsvector"@ {
        Strategy::TextSearch
    } else {
        Strategy::Fallback
    }
}

/// Looks a type name up in the fixed dispatch table.
pub fn classify(name: &str) -> (s: Strategy)
    ensures
        s == classify_spec(name@),
{
    if str_eq(name, "CHAR") || str_eq(name, "VARCHAR") || str_eq(name, "TEXT") || str_eq(
        name,
        "NAME",
    ) {
        Strategy::Text
    } else if str_eq(name, "FLOAT4") {
        Strategy::Float4
    } else if str_eq(name, "FLOAT8") {
        Strategy::Float8
    } else if str_eq(name, "INT2") {
        Strategy::Int2
    } else if str_eq(name, "INT4") {
        Strategy::Int4
    } else if str_eq(name, "INT8") {
        Strategy::Int8
    } else if str_eq(name, "BOOL") {
        Strategy::Boolean
    } else if str_eq(name, "DATE") {
        Strategy::Date
    } else if str_eq(name, "TIME") {
        Strategy::Time
    } else if str_eq(name, "TIMESTAMP") {
        Strategy::Timestamp
    } else if str_eq(name, "TIMESTAMPTZ") {
        Strategy::TimestampTz
    } else if str_eq(name, "JSON") {
        Strategy::JsonPlain
    } else if str_eq(name, "JSONB") {
        Strategy::JsonBinary
    } else if str_eq(name, "BYTEA") {
        Strategy::Bytea
    } else if str_eq(name, "VOID") {
        Strategy::Void
    } else if str_eq(name, "tsvector") {
        Strategy::TextSearch
    } else {
        Strategy::Fallback
    }
}

/// Text columns: the bytes decoded strictly as UTF-8, or null.
pub open spec fn text_model(bytes: Option<Seq<u8>>) -> ValueModel {
    match bytes {
        Some(bs) => if valid_utf8(bs) {
            ValueModel::Text(decode_utf8(bs))
        } else {
            ValueModel::Null
        },
        None => ValueModel::Null,
    }
}

/// 16-bit signed integer columns: big-endian from the first two bytes, or null.
pub open spec fn int2_model(bytes: Option<Seq<u8>>) -> ValueModel {
    match bytes {
        Some(bs) => if bs.len() >= 2 {
            ValueModel::Number(be_u16_at(bs, 0) as i16 as int)
        } else {
            ValueModel::Null
        },
        None => ValueModel::Null,
    }
}

/// 32-bit signed integer columns.
pub open spec fn int4_model(bytes: Option<Seq<u8>>) -> ValueModel {
    match bytes {
        Some(bs) => if bs.len() >= 4 {
            ValueModel::Number(be_u32_at(bs, 0) as i32 as int)
        } else {
            ValueModel::Null
        },
        None => ValueModel::Null,
    }
}

/// 64-bit signed integer columns.
pub open spec fn int8_model(bytes: Option<Seq<u8>>) -> ValueModel {
    match bytes {
        Some(bs) => if bs.len() >= 8 {
            ValueModel::Number(be_u64_at(bs, 0) as i64 as int)
        } else {
            ValueModel::Null
        },
        None => ValueModel::Null,
    }
}

/// Boolean columns: any nonzero first byte is true.
pub open spec fn boolean_model(bytes: Option<Seq<u8>>) -> ValueModel {
    match bytes {
        Some(bs) => if bs.len() >= 1 {
            ValueModel::Boolean(bs[0] != 0)
        } else {
            ValueModel::Null
        },
        None => ValueModel::Null,
    }
}

/// Date columns: a big-endian signed day count from 2000-01-01, turned into a
/// Julian day number and rendered by the calendar library, or null.
pub open spec fn date_model(bytes: Option<Seq<u8>>) -> ValueModel {
    match bytes {
        Some(bs) => if bs.len() >= 4 {
            let jd = (be_u32_at(bs, 0) as i32) + 2451545;
            if -2147483648 <= jd <= 2147483647 {
                match julian_date_text_of(jd) {
                    Some(s) => ValueModel::Text(s),
                    None => ValueModel::Null,
                }
            } else {
                ValueModel::Null
            }
        } else {
            ValueModel::Null
        },
        None => ValueModel::Null,
    }
}

/// Time-of-day columns: a big-endian signed microsecond count since midnight,
/// wrapped into one day and rendered, or null.
pub open spec fn time_model(bytes: Option<Seq<u8>>) -> ValueModel {
    match bytes {
        Some(bs) => if bs.len() >= 8 {
            ValueModel::Text(time_text_of((be_u64_at(bs, 0) as i64) as int % 86_400_000_000))
        } else {
            ValueModel::Null
        },
        None => ValueModel::Null,
    }
}

/// Zoneless datetime columns: a big-endian signed microsecond count since
/// 2000-01-01 00:00, split into days and the remainder and rendered, or null.
pub open spec fn timestamp_model(bytes: Option<Seq<u8>>) -> ValueModel {
    match bytes {
        Some(bs) => if bs.len() >= 8 {
            let us = (be_u64_at(bs, 0) as i64) as int;
            let jd = us / 86_400_000_000 + 2451545;
            if -2147483648 <= jd <= 2147483647 {
                match datetime_text_of(jd, us % 86_400_000_000) {
                    Some(s) => ValueModel::Text(s),
                    None => ValueModel::Null,
                }
            } else {
                ValueModel::Null
            }
        } else {
            ValueModel::Null
        },
        None => ValueModel::Null,
    }
}

/// Zone-aware datetime columns: the same instant taken as UTC.
pub open spec fn timestamptz_model(bytes: Option<Seq<u8>>) -> ValueModel {
    match bytes {
        Some(bs) => if bs.len() >= 8 {
            let us = (be_u64_at(bs, 0) as i64) as int;
            let jd = us / 86_400_000_000 + 2451545;
            if -2147483648 <= jd <= 2147483647 {
                match datetime_utc_text_of(jd, us % 86_400_000_000) {
                    Some(s) => ValueModel::Text(s),
                    None => ValueModel::Null,
                }
            } else {
                ValueModel::Null
            }
        } else {
            ValueModel::Null
        },
        None => ValueModel::Null,
    }
}

/// JSON columns: the bytes parsed as a JSON text and passed through, or null.
pub open spec fn json_model(bytes: Option<Seq<u8>>) -> ValueModel {
    match bytes {
        Some(bs) => match json_value_of(bs) {
            Some(j) => ValueModel::Json(j),
            None => ValueModel::Null,
        },
        None => ValueModel::Null,
    }
}

/// Binary JSON columns: a leading version byte of one, then the JSON text.
pub open spec fn jsonb_model(bytes: Option<Seq<u8>>) -> ValueModel {
    match bytes {
        Some(bs) => if bs.len() >= 1 && bs[0] == 1 {
            match json_value_of(bs.subrange(1, bs.len() as int)) {
                Some(j) => ValueModel::Json(j),
                None => ValueModel::Null,
            }
        } else {
            ValueModel::Null
        },
        None => ValueModel::Null,
    }
}

/// Raw byte columns: an array with one small number per byte.
pub open spec fn bytea_model(bytes: Option<Seq<u8>>) -> ValueModel {
    match bytes {
        Some(bs) => ValueModel::Array(bs.map_values(|x: u8| x as int)),
        None => ValueModel::Null,
    }
}

/// What decoding one column yields, for every input: null short-circuits, a
/// recognized name selects its strategy, an unrecognized name falls back to
/// the structural kind, and only the two documented conditions yield an error.
pub open spec fn decode_model(c: ColumnModel) -> Result<DecodedModel, ErrorModel> {
    if c.is_null {
        Ok(DecodedModel::Value(ValueModel::Null))
    } else {
        match classify_spec(c.ty_name) {
            Strategy::Text => Ok(DecodedModel::Value(text_model(c.bytes))),
            Strategy::Float4 => Ok(
                match c.bytes {
                    Some(bs) => DecodedModel::Float4Bytes(bs),
                    None => DecodedModel::Value(ValueModel::Null),
                },
            ),
            Strategy::Float8 => Ok(
                match c.bytes {
                    Some(bs) => DecodedModel::Float8Bytes(bs),
                    None => DecodedModel::Value(ValueModel::Null),
                },
            ),
            Strategy::Int2 => Ok(DecodedModel::Value(int2_model(c.bytes))),
            Strategy::Int4 => Ok(DecodedModel::Value(int4_model(c.bytes))),
            Strategy::Int8 => Ok(DecodedModel::Value(int8_model(c.bytes))),
            Strategy::Boolean => Ok(DecodedModel::Value(boolean_model(c.bytes))),
            Strategy::Date => Ok(DecodedModel::Value(date_model(c.bytes))),
            Strategy::Time => Ok(DecodedModel::Value(time_model(c.bytes))),
            Strategy::Timestamp => Ok(DecodedModel::Value(timestamp_model(c.bytes))),
            Strategy::TimestampTz => Ok(DecodedModel::Value(timestamptz_model(c.bytes))),
            Strategy::JsonPlain => Ok(DecodedModel::Value(json_model(c.bytes))),
            Strategy::JsonBinary => Ok(DecodedModel::Value(jsonb_model(c.bytes))),
            Strategy::Bytea => Ok(DecodedModel::Value(bytea_model(c.bytes))),
            Strategy::Void => Ok(DecodedModel::Value(ValueModel::Null)),
            Strategy::TextSearch => match c.bytes {
                None => Err(ErrorModel::Decode),
                Some(bs) => Ok(
                    DecodedModel::Value(
                        match parse_tsvector(bs) {
                            Some(ls) => ValueModel::Text(tsvector_text(ls)),
                            None => ValueModel::Null,
                        },
                    ),
                ),
            },
            Strategy::Fallback => match c.kind {
                KindModel::Enum(vars) => match c.bytes {
                    None => Err(ErrorModel::Decode),
                    Some(bs) => Ok(
                        DecodedModel::Value(
                            if vars.contains(lossy_text_of(bs)) {
                                ValueModel::Text(lossy_text_of(bs))
                            } else {
                                ValueModel::Null
                            },
                        ),
                    ),
                },
                _ => match c.bytes {
                    None => Err(ErrorModel::UnsupportedDatatype(c.ty_name)),
                    Some(bs) => Ok(
                        DecodedModel::Value(
                            if valid_utf8(bs) {
                                ValueModel::Text(decode_utf8(bs))
                            } else {
                                ValueModel::Null
                            },
                        ),
                    ),
                },
            },
        }
    }
}

/// A strategy that decodes bytes to a value right here: every recognized name
/// except the two float formats (whose bytes are handed back), `VOID` (which
/// never decodes), and the two paths that may propagate an error.
pub open spec fn scalar_strategy(s: Strategy) -> bool {
    match s {
        Strategy::Text => true,
        Strategy::Int2 => true,
        Strategy::Int4 => true,
        Strategy::Int8 => true,
        Strategy::Boolean => true,
        Strategy::Date => true,
        Strategy::Time => true,
        Strategy::Timestamp => true,
        Strategy::TimestampTz => true,
        Strategy::JsonPlain => true,
        Strategy::JsonBinary => true,
        Strategy::Bytea => true,
        _ => false,
    }
}

/// The exact condition under which each scalar strategy fails to decode the
/// bytes it was given.
pub open spec fn scalar_decode_fails(s: Strategy, bytes: Option<Seq<u8>>) -> bool {
    match bytes {
        None => true,
        Some(bs) => match s {
            Strategy::Text => !valid_utf8(bs),
            Strategy::Int2 => bs.len() < 2,
            Strategy::Int4 => bs.len() < 4,
            Strategy::Int8 => bs.len() < 8,
            Strategy::Boolean => bs.len() < 1,
            Strategy::Date => bs.len() < 4 || {
                let jd = (be_u32_at(bs, 0) as i32) + 2451545;
                !(-2147483648 <= jd <= 2147483647) || julian_date_text_of(jd) is None
            },
            Strategy::Time => bs.len() < 8,
            Strategy::Timestamp => bs.len() < 8 || {
                let us = (be_u64_at(bs, 0) as i64) as int;
                let jd = us / 86_400_000_000 + 2451545;
                !(-2147483648 <= jd <= 2147483647) || datetime_text_of(
                    jd,
                    us % 86_400_000_000,
                ) is None
            },
            Strategy::TimestampTz => bs.len() < 8 || {
                let us = (be_u64_at(bs, 0) as i64) as int;
                let jd = us / 86_400_000_000 + 2451545;
                !(-2147483648 <= jd <= 2147483647) || datetime_utc_text_of(
                    jd,
                    us % 86_400_000_000,
                ) is None
            },
            Strategy::JsonPlain => json_value_of(bs) is None,
            Strategy::JsonBinary => !(bs.len() >= 1 && bs[0] == 1) || json_value_of(
                bs.subrange(1, bs.len() as int),
            ) is None,
            Strategy::Bytea => false,
            _ => false,
        },
    }
}

/// A null column always decodes to null, whatever its declared type name and
/// kind: the null check precedes type dispatch.
pub proof fn lemma_null_decodes_to_null(c: ColumnModel)
    requires
        c.is_null,
    ensures
        decode_model(c) == Ok::<DecodedModel, ErrorModel>(DecodedModel::Value(ValueModel::Null)),
{
}

/// A recognized type name never propagates an error: only the
/// text-search-vector path and the unrecognized-name fallback can fail.
pub proof fn lemma_recognized_never_errors(c: ColumnModel)
    requires
        classify_spec(c.ty_name) != Strategy::TextSearch,
        classify_spec(c.ty_name) != Strategy::Fallback,
    ensures
        decode_model(c) is Ok,
{
}

/// A recognized scalar whose bytes fail to decode as the expected type yields
/// null — never an error, never any other value.
pub proof fn lemma_scalar_decode_failure_yields_null(c: ColumnModel)
    requires
        !c.is_null,
        scalar_strategy(classify_spec(c.ty_name)),
        scalar_decode_fails(classify_spec(c.ty_name), c.bytes),
    ensures
        decode_model(c) == Ok::<DecodedModel, ErrorModel>(DecodedModel::Value(ValueModel::Null)),
{
}

/// `VOID` always yields null, even when bytes are present and decodable: no
/// decode is attempted at all.
pub proof fn lemma_void_yields_null(c: ColumnModel)
    requires
        !c.is_null,
        classify_spec(c.ty_name) == Strategy::Void,
    ensures
        decode_model(c) == Ok::<DecodedModel, ErrorModel>(DecodedModel::Value(ValueModel::Null)),
{
}

/// Turns each byte into its small-number value.
fn bytes_to_numbers(b: &Vec<u8>) -> (r: Vec<i64>)
    ensures
        r@.map_values(|x: i64| x as int) == b@.map_values(|y: u8| y as int),
{
    let mut out: Vec<i64> = Vec::new();
    let mut i: usize = 0;
    while i < b.len()
        invariant
            i <= b@.len(),
            out@.len() == i,
            forall|j: int| 0 <= j < i ==> out@[j] == b@[j] as i64,
        decreases b@.len() - i,
    {
        out.push(b[i] as i64);
        i += 1;
    }
    proof {
        assert(out@.map_values(|x: i64| x as int) =~= b@.map_values(|y: u8| y as int));
    }
    out
}

/// Whether one of the declared variants equals `s`.
fn contains_string(vs: &Vec<String>, s: &String) -> (r: bool)
    ensures
        r == vs@.map_values(|x: String| x@).contains(s@),
{
    let mut i: usize = 0;
    while i < vs.len()
        invariant
            i <= vs@.len(),
            forall|j: int| 0 <= j < i ==> vs@[j]@ != s@,
        decreases vs@.len() - i,
    {
        if str_eq(vs[i].as_str(), s.as_str()) {
            proof {
                assert(vs@.map_values(|x: String| x@)[i as int] == s@);
            }
            return true;
        }
        i += 1;
    }
    proof {
        let m = vs@.map_values(|x: String| x@);
        assert forall|k: int| 0 <= k < m.len() implies #[trigger] m[k] != s@ by {
            assert(vs@[k]@ != s@);
        }
        assert(!m.contains(s@));
    }
    false
}

/// Decodes one typed, nullable column value. Null always yields null before
/// any type inspection; a recognized scalar whose bytes fail to decode yields
/// null, never an error; `VOID` yields null unconditionally; floating-point
/// columns hand their raw bytes back for the caller to decode.
#[verifier::rlimit(100)]
pub fn decode_column(v: &ColumnValue) -> (r: Result<Decoded, DecodeError>)
    ensures
        (r matches Ok(d) ==> decode_model(v@) == Ok::<DecodedModel, ErrorModel>(d@)),
        (r matches Err(e) ==> decode_model(v@) == Err::<DecodedModel, ErrorModel>(e@)),
        v.is_null ==> r == Ok::<Decoded, DecodeError>(Decoded::Value(GenericValue::Null)),
        !v.is_null && classify_spec(v.ty_name@) == Strategy::Void ==> r == Ok::<
            Decoded,
            DecodeError,
        >(Decoded::Value(GenericValue::Null)),
        classify_spec(v.ty_name@) != Strategy::TextSearch && classify_spec(v.ty_name@)
            != Strategy::Fallback ==> r is Ok,
{
    if v.is_null {
        return Ok(Decoded::Value(GenericValue::Null));
    }
    match classify(v.ty_name.as_str()) {
        Strategy::Text => Ok(
            Decoded::Value(
                match &v.bytes {
                    Some(b) => match string_from_utf8(slice_to_vec(b.as_slice())) {
                        Some(s) => GenericValue::Text(s),
                        None => GenericValue::Null,
                    },
                    None => GenericValue::Null,
                },
            ),
        ),
        Strategy::Float4 => Ok(
            match &v.bytes {
                Some(b) => Decoded::Float4Bytes(slice_to_vec(b.as_slice())),
                None => Decoded::Value(GenericValue::Null),
            },
        ),
        Strategy::Float8 => Ok(
            match &v.bytes {
                Some(b) => Decoded::Float8Bytes(slice_to_vec(b.as_slice())),
                None => Decoded::Value(GenericValue::Null),
            },
        ),
        Strategy::Int2 => Ok(
            Decoded::Value(
                match &v.bytes {
                    Some(b) => if b.len() >= 2 {
                        let raw = read_be_u16(b.as_slice(), 0);
                        GenericValue::Number((#[verifier::truncate] (raw as i16)) as i64)
                    } else {
                        GenericValue::Null
                    },
                    None => GenericValue::Null,
                },
            ),
        ),
        Strategy::Int4 => Ok(
            Decoded::Value(
                match &v.bytes {
                    Some(b) => if b.len() >= 4 {
                        let raw = read_be_u32(b.as_slice(), 0);
                        GenericValue::Number((#[verifier::truncate] (raw as i32)) as i64)
                    } else {
                        GenericValue::Null
                    },
                    None => GenericValue::Null,
                },
            ),
        ),
        Strategy::Int8 => Ok(
            Decoded::Value(
                match &v.bytes {
                    Some(b) => if b.len() >= 8 {
                        let raw = read_be_u64(b.as_slice(), 0);
                        GenericValue::Number(#[verifier::truncate] (raw as i64))
                    } else {
                        GenericValue::Null
                    },
                    None => GenericValue::Null,
                },
            ),
        ),
        Strategy::Boolean => Ok(
            Decoded::Value(
                match &v.bytes {
                    Some(b) => if b.len() >= 1 {
                        GenericValue::Boolean(b[0] != 0)
                    } else {
                        GenericValue::Null
                    },
                    None => GenericValue::Null,
                },
            ),
        ),
        Strategy::Date => Ok(
            Decoded::Value(
                match &v.bytes {
                    Some(b) => if b.len() >= 4 {
                        let raw = read_be_u32(b.as_slice(), 0);
                        let days = #[verifier::truncate] (raw as i32);
                        let jd64: i64 = days as i64 + 2451545;
                        if jd64 >= -2147483648 && jd64 <= 2147483647 {
                            match julian_date_string(jd64 as i32) {
                                Some(s) => GenericValue::Text(s),
                                None => GenericValue::Null,
                            }
                        } else {
                            GenericValue::Null
                        }
                    } else {
                        GenericValue::Null
                    },
                    None => GenericValue::Null,
                },
            ),
        ),
        Strategy::Time => Ok(
            Decoded::Value(
                match &v.bytes {
                    Some(b) => if b.len() >= 8 {
                        let raw = read_be_u64(b.as_slice(), 0);
                        let us = #[verifier::truncate] (raw as i64);
                        let qr = euclid_day_rem(us);
                        GenericValue::Text(time_of_day_string(qr.1))
                    } else {
                        GenericValue::Null
                    },
                    None => GenericValue::Null,
                },
            ),
        ),
        Strategy::Timestamp => Ok(
            Decoded::Value(
                match &v.bytes {
                    Some(b) => if b.len() >= 8 {
                        let raw = read_be_u64(b.as_slice(), 0);
                        let us = #[verifier::truncate] (raw as i64);
                        let qr = euclid_day_rem(us);
                        let jd64: i64 = qr.0 + 2451545;
                        if jd64 >= -2147483648 && jd64 <= 2147483647 {
                            match datetime_string(jd64 as i32, qr.1) {
                                Some(s) => GenericValue::Text(s),
                                None => GenericValue::Null,
                            }
                        } else {
                            GenericValue::Null
                        }
                    } else {
                        GenericValue::Null
                    },
                    None => GenericValue::Null,
                },
            ),
        ),
        Strategy::TimestampTz => Ok(
            Decoded::Value(
                match &v.bytes {
                    Some(b) => if b.len() >= 8 {
                        let raw = read_be_u64(b.as_slice(), 0);
                        let us = #[verifier::truncate] (raw as i64);
                        let qr = euclid_day_rem(us);
                        let jd64: i64 = qr.0 + 2451545;
                        if jd64 >= -2147483648 && jd64 <= 2147483647 {
                            match datetime_utc_string(jd64 as i32, qr.1) {
                                Some(s) => GenericValue::Text(s),
                                None => GenericValue::Null,
                            }
                        } else {
                            GenericValue::Null
                        }
                    } else {
                        GenericValue::Null
                    },
                    None => GenericValue::Null,
                },
            ),
        ),
        Strategy::JsonPlain => Ok(
            Decoded::Value(
                match &v.bytes {
                    Some(b) => match parse_json(b.as_slice()) {
                        Some(j) => GenericValue::Json(j),
                        None => GenericValue::Null,
                    },
                    None => GenericValue::Null,
                },
            ),
        ),
        Strategy::JsonBinary => Ok(
            Decoded::Value(
                match &v.bytes {
                    Some(b) => if b.len() >= 1 && b[0] == 1 {
                        match parse_json(slice_subrange(b.as_slice(), 1, b.len())) {
                            Some(j) => GenericValue::Json(j),
                            None => GenericValue::Null,
                        }
                    } else {
                        GenericValue::Null
                    },
                    None => GenericValue::Null,
                },
            ),
        ),
        Strategy::Bytea => Ok(
            Decoded::Value(
                match &v.bytes {
                    Some(b) => GenericValue::Array(bytes_to_numbers(b)),
                    None => GenericValue::Null,
                },
            ),
        ),
        Strategy::Void => Ok(Decoded::Value(GenericValue::Null)),
        Strategy::TextSearch => match &v.bytes {
            None => Err(DecodeError::Decode),
            Some(b) => Ok(
                Decoded::Value(
                    match TsVector::try_from(b.as_slice()) {
                        Ok(tv) => GenericValue::Text(tv.to_string()),
                        Err(_) => GenericValue::Null,
                    },
                ),
            ),
        },
        Strategy::Fallback => match &v.kind {
            TypeKind::Enum(variants) => match &v.bytes {
                None => Err(DecodeError::Decode),
                Some(b) => {
                    let s = string_from_utf8_lossy(b.as_slice());
                    if contains_string(variants, &s) {
                        Ok(Decoded::Value(GenericValue::Text(s)))
                    } else {
                        Ok(Decoded::Value(GenericValue::Null))
                    }
                },
            },
            _ => match &v.bytes {
                None => Err(DecodeError::UnsupportedDatatype(v.ty_name.clone())),
                Some(b) => match string_from_utf8(slice_to_vec(b.as_slice())) {
                    Some(s) => Ok(Decoded::Value(GenericValue::Text(s))),
                    None => Ok(Decoded::Value(GenericValue::Null)),
                },
            },
        },
    }
}

} // verus!
