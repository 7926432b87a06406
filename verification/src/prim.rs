//! Primitive scalar codec: the types with a one-to-one wire tag mapping
//! (integers, boolean, text, UUID, JSON-as-text), each with its query-language
//! type-cast name.

use vstd::prelude::*;

use crate::wire::{DecodeError, DecodeErrorKind, Uuid, WireValue};

verus! {

/// A primitive EdgeDB type: a native type with a fixed wire tag and a fixed
/// type-cast name. Decoding succeeds exactly on values carrying that tag.
pub trait EdgedbPrim: Sized {
    /// The type-cast name used for parameters of this type, e.g. `int32`.
    spec fn cast_spec() -> Seq<char>;

    /// Decoding `v` succeeds with the result `out`.
    spec fn prim_decode_ok(v: WireValue, out: Self) -> bool;

    /// The error on which decoding `v` fails, or `None` when it succeeds.
    spec fn prim_decode_err(v: WireValue) -> Option<DecodeErrorKind>;

    /// The wire value this value encodes to; encoding never fails.
    spec fn prim_encode(self) -> WireValue;

    fn type_cast() -> (r: &'static str)
        ensures
            r@ == Self::cast_spec(),
    ;

    fn from_edgedb_val(value: WireValue) -> (r: Result<Self, DecodeError>)
        ensures
            (match r {
                Ok(out) => Self::prim_decode_ok(value, out) && Self::prim_decode_err(value)
                    is None,
                Err(e) => Self::prim_decode_err(value) == Some(e.kind) && e.field is None,
            }),
    ;

    fn to_edgedb_val(self) -> (r: Result<WireValue, DecodeError>)
        ensures
            r == Ok::<WireValue, DecodeError>(self.prim_encode()),
    ;
}

impl EdgedbPrim for i16 {
    open spec fn cast_spec() -> Seq<char> {
        "int16"@
    }

    open spec fn prim_decode_ok(v: WireValue, out: i16) -> bool {
        v == WireValue::Int16(out)
    }

    open spec fn prim_decode_err(v: WireValue) -> Option<DecodeErrorKind> {
        match v {
            WireValue::Int16(_) => None,
            _ => Some(DecodeErrorKind::Unexpected(v)),
        }
    }

    open spec fn prim_encode(self) -> WireValue {
        WireValue::Int16(self)
    }

    fn type_cast() -> &'static str {
        "int16"
    }

    fn from_edgedb_val(value: WireValue) -> Result<Self, DecodeError> {
        match value {
            WireValue::Int16(x) => Ok(x),
            v => Err(DecodeError::new(DecodeErrorKind::Unexpected(v))),
        }
    }

    fn to_edgedb_val(self) -> Result<WireValue, DecodeError> {
        Ok(WireValue::Int16(self))
    }
}

impl EdgedbPrim for i32 {
    open spec fn cast_spec() -> Seq<char> {
        "int32"@
    }

    open spec fn prim_decode_ok(v: WireValue, out: i32) -> bool {
        v == WireValue::Int32(out)
    }

    open spec fn prim_decode_err(v: WireValue) -> Option<DecodeErrorKind> {
        match v {
            WireValue::Int32(_) => None,
            _ => Some(DecodeErrorKind::Unexpected(v)),
        }
    }

    open spec fn prim_encode(self) -> WireValue {
        WireValue::Int32(self)
    }

    fn type_cast() -> &'static str {
        "int32"
    }

    fn from_edgedb_val(value: WireValue) -> Result<Self, DecodeError> {
        match value {
            WireValue::Int32(x) => Ok(x),
            v => Err(DecodeError::new(DecodeErrorKind::Unexpected(v))),
        }
    }

    fn to_edgedb_val(self) -> Result<WireValue, DecodeError> {
        Ok(WireValue::Int32(self))
    }
}

impl EdgedbPrim for i64 {
    open spec fn cast_spec() -> Seq<char> {
        "int64"@
    }

    open spec fn prim_decode_ok(v: WireValue, out: i64) -> bool {
        v == WireValue::Int64(out)
    }

    open spec fn prim_decode_err(v: WireValue) -> Option<DecodeErrorKind> {
        match v {
            WireValue::Int64(_) => None,
            _ => Some(DecodeErrorKind::Unexpected(v)),
        }
    }

    open spec fn prim_encode(self) -> WireValue {
        WireValue::Int64(self)
    }

    fn type_cast() -> &'static str {
        "int64"
    }

    fn from_edgedb_val(value: WireValue) -> Result<Self, DecodeError> {
        match value {
            WireValue::Int64(x) => Ok(x),
            v => Err(DecodeError::new(DecodeErrorKind::Unexpected(v))),
        }
    }

    fn to_edgedb_val(self) -> Result<WireValue, DecodeError> {
        Ok(WireValue::Int64(self))
    }
}

impl EdgedbPrim for bool {
    open spec fn cast_spec() -> Seq<char> {
        "bool"@
    }

    open spec fn prim_decode_ok(v: WireValue, out: bool) -> bool {
        v == WireValue::Bool(out)
    }

    open spec fn prim_decode_err(v: WireValue) -> Option<DecodeErrorKind> {
        match v {
            WireValue::Bool(_) => None,
            _ => Some(DecodeErrorKind::Unexpected(v)),
        }
    }

    open spec fn prim_encode(self) -> WireValue {
        WireValue::Bool(self)
    }

    fn type_cast() -> &'static str {
        "bool"
    }

    fn from_edgedb_val(value: WireValue) -> Result<Self, DecodeError> {
        match value {
            WireValue::Bool(x) => Ok(x),
            v => Err(DecodeError::new(DecodeErrorKind::Unexpected(v))),
        }
    }

    fn to_edgedb_val(self) -> Result<WireValue, DecodeError> {
        Ok(WireValue::Bool(self))
    }
}

impl EdgedbPrim for String {
    open spec fn cast_spec() -> Seq<char> {
        "str"@
    }

    open spec fn prim_decode_ok(v: WireValue, out: String) -> bool {
        v == WireValue::Str(out)
    }

    open spec fn prim_decode_err(v: WireValue) -> Option<DecodeErrorKind> {
        match v {
            WireValue::Str(_) => None,
            _ => Some(DecodeErrorKind::Unexpected(v)),
        }
    }

    open spec fn prim_encode(self) -> WireValue {
        WireValue::Str(self)
    }

    fn type_cast() -> &'static str {
        "str"
    }

    fn from_edgedb_val(value: WireValue) -> Result<Self, DecodeError> {
        match value {
            WireValue::Str(x) => Ok(x),
            v => Err(DecodeError::new(DecodeErrorKind::Unexpected(v))),
        }
    }

    fn to_edgedb_val(self) -> Result<WireValue, DecodeError> {
        Ok(WireValue::Str(self))
    }
}

impl EdgedbPrim for Uuid {
    open spec fn cast_spec() -> Seq<char> {
        "uuid"@
    }

    open spec fn prim_decode_ok(v: WireValue, out: Uuid) -> bool {
        v == WireValue::Uuid(out)
    }

    open spec fn prim_decode_err(v: WireValue) -> Option<DecodeErrorKind> {
        match v {
            WireValue::Uuid(_) => None,
            _ => Some(DecodeErrorKind::Unexpected(v)),
        }
    }

    open spec fn prim_encode(self) -> WireValue {
        WireValue::Uuid(self)
    }

    fn type_cast() -> &'static str {
        "uuid"
    }

    fn from_edgedb_val(value: WireValue) -> Result<Self, DecodeError> {
        match value {
            WireValue::Uuid(x) => Ok(x),
            v => Err(DecodeError::new(DecodeErrorKind::Unexpected(v))),
        }
    }

    fn to_edgedb_val(self) -> Result<WireValue, DecodeError> {
        Ok(WireValue::Uuid(self))
    }
}

/// A JSON document, carried as its serialized text. Conversion between this
/// text and a native structured type is the structured-serialization
/// collaborator's job and happens outside this library; here the document
/// is the text itself.
#[derive(Debug, PartialEq, Eq)]
pub struct EdgedbJson(pub String);

impl EdgedbPrim for EdgedbJson {
    open spec fn cast_spec() -> Seq<char> {
        "json"@
    }

    open spec fn prim_decode_ok(v: WireValue, out: EdgedbJson) -> bool {
        v == WireValue::Json(out.0)
    }

    open spec fn prim_decode_err(v: WireValue) -> Option<DecodeErrorKind> {
        match v {
            WireValue::Json(_) => None,
            _ => Some(DecodeErrorKind::Unexpected(v)),
        }
    }

    open spec fn prim_encode(self) -> WireValue {
        WireValue::Json(self.0)
    }

    fn type_cast() -> &'static str {
        "json"
    }

    fn from_edgedb_val(value: WireValue) -> Result<Self, DecodeError> {
        match value {
            WireValue::Json(x) => Ok(EdgedbJson(x)),
            v => Err(DecodeError::new(DecodeErrorKind::Unexpected(v))),
        }
    }

    fn to_edgedb_val(self) -> Result<WireValue, DecodeError> {
        Ok(WireValue::Json(self.0))
    }
}

/// Round trip: every supported scalar decodes back from its own encoding.
/// One lemma per scalar type, each stated over the codec's spec functions.
pub proof fn lemma_round_trip_i16(v: i16)
    ensures
        <i16 as EdgedbPrim>::prim_decode_ok(v.prim_encode(), v),
        <i16 as EdgedbPrim>::prim_decode_err(v.prim_encode()) is None,
{
}

pub proof fn lemma_round_trip_i32(v: i32)
    ensures
        <i32 as EdgedbPrim>::prim_decode_ok(v.prim_encode(), v),
        <i32 as EdgedbPrim>::prim_decode_err(v.prim_encode()) is None,
{
}

pub proof fn lemma_round_trip_i64(v: i64)
    ensures
        <i64 as EdgedbPrim>::prim_decode_ok(v.prim_encode(), v),
        <i64 as EdgedbPrim>::prim_decode_err(v.prim_encode()) is None,
{
}

pub proof fn lemma_round_trip_bool(v: bool)
    ensures
        <bool as EdgedbPrim>::prim_decode_ok(v.prim_encode(), v),
        <bool as EdgedbPrim>::prim_decode_err(v.prim_encode()) is None,
{
}

pub proof fn lemma_round_trip_string(v: String)
    ensures
        <String as EdgedbPrim>::prim_decode_ok(v.prim_encode(), v),
        <String as EdgedbPrim>::prim_decode_err(v.prim_encode()) is None,
{
}

pub proof fn lemma_round_trip_uuid(v: Uuid)
    ensures
        <Uuid as EdgedbPrim>::prim_decode_ok(v.prim_encode(), v),
        <Uuid as EdgedbPrim>::prim_decode_err(v.prim_encode()) is None,
{
}

pub proof fn lemma_round_trip_json(v: EdgedbJson)
    ensures
        <EdgedbJson as EdgedbPrim>::prim_decode_ok(v.prim_encode(), v),
        <EdgedbJson as EdgedbPrim>::prim_decode_err(v.prim_encode()) is None,
{
}

/// Scalar decoding is deterministic: a wire value decodes to at most one
/// result. One lemma per scalar type.
pub proof fn lemma_decode_unique_i32(w: WireValue, a: i32, b: i32)
    requires
        <i32 as EdgedbPrim>::prim_decode_ok(w, a),
        <i32 as EdgedbPrim>::prim_decode_ok(w, b),
    ensures
        a == b,
{
}

} // verus!
