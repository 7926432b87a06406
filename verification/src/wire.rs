//! The wire value representation exchanged with the database, modelled as a
//! tagged union over plain values, together with the cardinality kinds and the
//! decode-error type shared by the whole codec.

use vstd::prelude::*;

verus! {

/// A 128-bit universally unique identifier, as carried by the wire protocol.
#[derive(Debug, Clone, Copy, PartialEq, Eq, Structural)]
pub struct Uuid(pub u128);

/// One wire value: the tagged representation in which query arguments are
/// sent and query results are received.
///
/// An `Object` pairs a shape (the ordered element names) with a parallel
/// vector of optional values; `Rows` is the wire's multi-row set container.
#[derive(Debug, PartialEq, Eq)]
pub enum WireValue {
    /// The wire's "no value" marker.
    Nothing,
    Int16(i16),
    Int32(i32),
    Int64(i64),
    Bool(bool),
    Str(String),
    Uuid(Uuid),
    /// A JSON document carried as text.
    Json(String),
    Object { shape: Vec<String>, fields: Vec<Option<WireValue>> },
    /// The wire's multi-row set container.
    Rows(Vec<WireValue>),
    Tuple(Vec<WireValue>),
    Array(Vec<WireValue>),
}

/// How many rows a query (or a field of an object) is expected to produce.
#[derive(Debug, Clone, Copy, PartialEq, Eq, Structural)]
pub enum Cardinality {
    One,
    AtMostOne,
    Many,
    AtLeastOne,
}

/// What went wrong while decoding a wire value, without the field context.
#[derive(Debug, PartialEq, Eq)]
pub enum DecodeErrorKind {
    /// The value's tag was not the one the target type expects; carries the
    /// offending value for diagnostics.
    Unexpected(WireValue),
    /// An object payload was required.
    ExpectedObject,
    /// A set payload was required.
    ExpectedSet,
    /// An object payload with an `id` element was required.
    ExpectedId,
    /// A required (cardinality-one) slot had no value.
    MissingRequired,
    /// A non-empty set was required, but the set was empty.
    ExpectedNonEmpty,
    /// A tuple of this arity was required.
    ExpectedTupleOfLen(usize),
    /// A reference value does not re-encode to the wire; see `Ref`.
    RefEncodingUnsupported,
}

/// A decode failure, optionally labelled with the object field on which it
/// arose.
#[derive(Debug, PartialEq, Eq)]
pub struct DecodeError {
    pub kind: DecodeErrorKind,
    /// The name of the object field whose decoding failed, where known.
    pub field: Option<String>,
}

/// The mathematical content of a decode error: its kind and the view of the
/// field label, if any. Contracts compare errors through this view.
pub type ErrView = (DecodeErrorKind, Option<Seq<char>>);

/// The view of a concrete decode error.
pub open spec fn err_view(e: DecodeError) -> ErrView {
    (
        e.kind,
        match e.field {
            Some(s) => Some(s@),
            None => None,
        },
    )
}

impl DecodeError {
    /// An error without field context.
    pub fn new(kind: DecodeErrorKind) -> (r: DecodeError)
        ensures
            r.kind == kind,
            r.field is None,
    {
        DecodeError { kind, field: None }
    }

    /// The same error, labelled with the field `name`.
    pub fn for_field(self, name: String) -> (r: DecodeError)
        ensures
            r.kind == self.kind,
            r.field == Some(name),
    {
        DecodeError { kind: self.kind, field: Some(name) }
    }
}

} // verus!
