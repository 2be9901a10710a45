//! The data model: a typed, nullable column value as the database driver
//! reports it, the generic value tree the decoders produce, and the decode
//! errors, each with its specification-level view.

use vstd::prelude::*;

verus! {

/// A type's structural classification, independent of its name.
#[derive(Clone, Debug, PartialEq)]
pub enum TypeKind {
    Base,
    Enum(Vec<String>),
    Domain,
    Array,
    Other,
}

/// Specification-level view of a [`TypeKind`].
pub enum KindModel {
    Base,
    Enum(Seq<Seq<char>>),
    Domain,
    Array,
    Other,
}

impl View for TypeKind {
    type V = KindModel;

    open spec fn view(&self) -> KindModel {
        match self {
            TypeKind::Base => KindModel::Base,
            TypeKind::Enum(vs) => KindModel::Enum(vs@.map_values(|s: String| s@)),
            TypeKind::Domain => KindModel::Domain,
            TypeKind::Array => KindModel::Array,
            TypeKind::Other => KindModel::Other,
        }
    }
}

/// One column cell as the driver hands it over: whether it is null, its
/// declared type name and structural kind, and its raw bytes — `None` when
/// extraction from the driver fails.
#[derive(Clone, Debug, PartialEq)]
pub struct ColumnValue {
    pub is_null: bool,
    pub ty_name: String,
    pub kind: TypeKind,
    pub bytes: Option<Vec<u8>>,
}

/// Specification-level view of a [`ColumnValue`].
pub struct ColumnModel {
    pub is_null: bool,
    pub ty_name: Seq<char>,
    pub kind: KindModel,
    pub bytes: Option<Seq<u8>>,
}

impl View for ColumnValue {
    type V = ColumnModel;

    open spec fn view(&self) -> ColumnModel {
        ColumnModel {
            is_null: self.is_null,
            ty_name: self.ty_name@,
            kind: self.kind@,
            bytes: match self.bytes {
                Some(b) => Some(b@),
                None => None,
            },
        }
    }
}

/// A decoded generic value: the null/bool/number/text/array tree. The decoders
/// build arrays of small numbers only, and `Json` carries an already-parsed
/// JSON document through unchanged.
#[derive(Debug, PartialEq)]
pub enum GenericValue {
    Null,
    Boolean(bool),
    Number(i64),
    Text(String),
    Array(Vec<i64>),
    Json(serde_json::Value),
}

/// Specification-level view of a [`GenericValue`].
pub enum ValueModel {
    Null,
    Boolean(bool),
    Number(int),
    Text(Seq<char>),
    Array(Seq<int>),
    Json(serde_json::Value),
}

impl View for GenericValue {
    type V = ValueModel;

    open spec fn view(&self) -> ValueModel {
        match self {
            GenericValue::Null => ValueModel::Null,
            GenericValue::Boolean(b) => ValueModel::Boolean(*b),
            GenericValue::Number(n) => ValueModel::Number(*n as int),
            GenericValue::Text(s) => ValueModel::Text(s@),
            GenericValue::Array(v) => ValueModel::Array(v@.map_values(|x: i64| x as int)),
            GenericValue::Json(j) => ValueModel::Json(*j),
        }
    }
}

/// The dispatcher's outcome. Floating-point columns cannot be decoded here, so
/// for them the dispatcher hands the raw bytes back to the caller, which
/// decodes them as the matching binary float format.
#[derive(Debug, PartialEq)]
pub enum Decoded {
    Value(GenericValue),
    Float4Bytes(Vec<u8>),
    Float8Bytes(Vec<u8>),
}

/// Specification-level view of a [`Decoded`].
pub enum DecodedModel {
    Value(ValueModel),
    Float4Bytes(Seq<u8>),
    Float8Bytes(Seq<u8>),
}

impl View for Decoded {
    type V = DecodedModel;

    open spec fn view(&self) -> DecodedModel {
        match self {
            Decoded::Value(v) => DecodedModel::Value(v@),
            Decoded::Float4Bytes(b) => DecodedModel::Float4Bytes(b@),
            Decoded::Float8Bytes(b) => DecodedModel::Float8Bytes(b@),
        }
    }
}

/// The two failures that propagate to the caller: a type that is neither
/// recognized by name nor an enum by kind and whose raw bytes cannot be
/// extracted, and a failed byte extraction on a path that requires bytes.
#[derive(Clone, Debug, PartialEq, Eq)]
pub enum DecodeError {
    UnsupportedDatatype(String),
    Decode,
}

/// Specification-level view of a [`DecodeError`].
pub enum ErrorModel {
    UnsupportedDatatype(Seq<char>),
    Decode,
}

impl View for DecodeError {
    type V = ErrorModel;

    open spec fn view(&self) -> ErrorModel {
        match self {
            DecodeError::UnsupportedDatatype(n) => ErrorModel::UnsupportedDatatype(n@),
            DecodeError::Decode => ErrorModel::Decode,
        }
    }
}

} // verus!
