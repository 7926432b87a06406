//! Result object mapper: matching a wire object payload (an ordered shape of
//! element names plus a parallel vector of optional values) against the named
//! fields of a native structure.
//!
//! Each declared field is looked up by name in the shape; its slot value is
//! moved out and decoded through the cardinality-aware codec; a decode
//! failure or a missing required value aborts the whole object's decode with
//! an error labelled with that field's name. Unmatched shape elements are
//! ignored. Fields are processed in declaration order.

use vstd::prelude::*;

use crate::value::{EdgedbSetValue, EdgedbValue};
use crate::wire::{err_view, DecodeError, DecodeErrorKind, ErrView, WireValue};

verus! {

/// Character-wise string equality, usable on any two string slices.
pub fn str_eq(a: &str, b: &str) -> (r: bool)
    ensures
        r == (a@ == b@),
{
    let alen = a.unicode_len();
    let blen = b.unicode_len();
    if alen != blen {
        return false;
    }
    let mut i: usize = 0;
    while i < alen
        invariant
            0 <= i <= alen,
            alen == a@.len(),
            alen == b@.len(),
            forall|j: int| 0 <= j < i ==> a@[j] == b@[j],
        decreases alen - i,
    {
        if a.get_char(i) != b.get_char(i) {
            return false;
        }
        i += 1;
    }
    proof {
        assert(a@ =~= b@);
    }
    true
}

/// The index of the first shape element named `name`, if any.
pub open spec fn find_name(shape: Seq<String>, name: Seq<char>) -> Option<int>
    decreases shape.len(),
{
    if shape.len() == 0 {
        None
    } else if shape[0]@ == name {
        Some(0)
    } else {
        match find_name(shape.skip(1), name) {
            Some(i) => Some(i + 1),
            None => None,
        }
    }
}

proof fn lemma_find_name_skip(shape: Seq<String>, name: Seq<char>, i: int)
    requires
        0 <= i <= shape.len(),
        forall|j: int| 0 <= j < i ==> (#[trigger] shape[j])@ != name,
    ensures
        find_name(shape, name) == (match find_name(shape.skip(i), name) {
            Some(k) => Some(i + k),
            None => None::<int>,
        }),
    decreases i,
{
    if i == 0 {
        assert(shape.skip(0) =~= shape);
    } else {
        assert(shape[0]@ != name);
        assert(forall|j: int| 0 <= j < i - 1 ==> (#[trigger] shape.skip(1)[j])@ != name);
        lemma_find_name_skip(shape.skip(1), name, i - 1);
        assert(shape.skip(1).skip(i - 1) =~= shape.skip(i));
    }
}

/// The value found for `name`: the first matching slot's content, or `None`
/// when the name is absent from the shape or its slot is out of range.
pub open spec fn taken(shape: Seq<String>, fields: Seq<Option<WireValue>>, name: Seq<char>) -> Option<
    WireValue,
> {
    match find_name(shape, name) {
        Some(i) => if i < fields.len() {
            fields[i]
        } else {
            None
        },
        None => None,
    }
}

/// The field vector after the slot for `name` has been moved out.
pub open spec fn fields_after_take(
    shape: Seq<String>,
    fields: Seq<Option<WireValue>>,
    name: Seq<char>,
) -> Seq<Option<WireValue>> {
    match find_name(shape, name) {
        Some(i) => if i < fields.len() {
            fields.update(i, None)
        } else {
            fields
        },
        None => fields,
    }
}

/// Moves the slot for `name` out of `fields`, leaving `None` behind.
#[verifier::loop_isolation(false)]
pub fn take_field(shape: &Vec<String>, fields: &mut Vec<Option<WireValue>>, name: &str) -> (r: Option<
    WireValue,
>)
    ensures
        r == taken(shape@, old(fields)@, name@),
        final(fields)@ == fields_after_take(shape@, old(fields)@, name@),
{
    let ghost fields0 = fields@;
    let n = shape.len();
    let mut i: usize = 0;
    while i < n
        invariant
            0 <= i <= n,
            n == shape@.len(),
            fields@ == fields0,
            forall|j: int| 0 <= j < i ==> (#[trigger] shape@[j])@ != name@,
        decreases n - i,
    {
        if str_eq(shape[i].as_str(), name) {
            proof {
                lemma_find_name_skip(shape@, name@, i as int);
                assert(shape@.skip(i as int)[0] == shape@[i as int]);
                assert(find_name(shape@, name@) == Some(i as int));
            }
            if i < fields.len() {
                let v = fields.remove(i);
                fields.insert(i, None);
                proof {
                    assert(fields@ =~= fields0.update(i as int, None));
                }
                return v;
            }
            return None;
        }
        i += 1;
    }
    proof {
        lemma_find_name_skip(shape@, name@, n as int);
        assert(shape@.skip(n as int).len() == 0);
        assert(find_name(shape@, name@) is None);
    }
    None
}

/// An error view labelled with the field `name`, unless it already carries a
/// more specific label from a nested decode.
pub open spec fn label_err(ev: ErrView, name: Seq<char>) -> ErrView {
    (
        ev.0,
        match ev.1 {
            Some(l) => Some(l),
            None => Some(name),
        },
    )
}

fn with_field_label(e: DecodeError, name: &str) -> (r: DecodeError)
    ensures
        err_view(r) == label_err(err_view(e), name@),
{
    match e.field {
        Some(_) => e,
        None => DecodeError { kind: e.kind, field: Some(name.to_owned()) },
    }
}

/// Decoding the field `name` of type `FT` succeeds with `out`.
pub open spec fn field_decode_ok<FT: EdgedbSetValue>(
    shape: Seq<String>,
    fields: Seq<Option<WireValue>>,
    name: Seq<char>,
    out: FT,
) -> bool {
    match taken(shape, fields, name) {
        Some(w) => exists|mid: FT|
            #[trigger] FT::set_decode_ok(w, mid) && FT::interp_missing_ok(Some(mid), out),
        None => FT::interp_missing_ok(None, out),
    }
}

/// The error view on which decoding the field `name` fails.
pub open spec fn field_decode_err<FT: EdgedbSetValue>(
    shape: Seq<String>,
    fields: Seq<Option<WireValue>>,
    name: Seq<char>,
) -> Option<ErrView> {
    match taken(shape, fields, name) {
        Some(w) => match FT::set_decode_err(w) {
            Some(ev) => Some(label_err(ev, name)),
            None => None,
        },
        None => match FT::interp_missing_err(None) {
            Some(ev) => Some(label_err(ev, name)),
            None => None,
        },
    }
}

/// Takes the slot for `name` out of `fields`, decodes it under `FT`'s
/// cardinality, and interprets an absent slot; errors are labelled with
/// `name`.
pub fn decode_object_field<FT: EdgedbSetValue>(
    shape: &Vec<String>,
    fields: &mut Vec<Option<WireValue>>,
    name: &str,
) -> (r: Result<FT, DecodeError>)
    ensures
        final(fields)@ == fields_after_take(shape@, old(fields)@, name@),
        (match r {
            Ok(out) => field_decode_ok::<FT>(shape@, old(fields)@, name@, out)
                && field_decode_err::<FT>(shape@, old(fields)@, name@) is None,
            Err(e) => field_decode_err::<FT>(shape@, old(fields)@, name@) == Some(err_view(e)),
        }),
{
    let slot = take_field(shape, fields, name);
    let stage: Option<FT> = match slot {
        Some(w) => match FT::from_edgedb_set_value(w) {
            Ok(x) => Some(x),
            Err(e) => {
                return Err(with_field_label(e, name));
            },
        },
        None => None,
    };
    match FT::interpret_possibly_missing_required_value(stage) {
        Ok(out) => {
            proof {
                if stage is Some {
                    FT::lemma_interp_some_ok(stage->0);
                }
            }
            Ok(out)
        },
        Err(e) => {
            proof {
                if stage is Some {
                    FT::lemma_interp_some_ok(stage->0);
                    assert(false);
                }
            }
            Err(with_field_label(e, name))
        },
    }
}

/// A native structure that maps to and from a wire object payload.
///
/// Decoding is the read direction the database exercises on every query.
/// The write direction is defined here deliberately: encoding produces a
/// shape holding exactly the declared field names, in declaration order,
/// each slot present and holding that field's encoded value.
pub trait EdgedbObject: Sized {
    /// Decoding the payload succeeds with the result `out`.
    spec fn object_decode_ok(
        shape: Seq<String>,
        fields: Seq<Option<WireValue>>,
        out: Self,
    ) -> bool;

    /// The error view on which decoding the payload fails.
    spec fn object_decode_err(shape: Seq<String>, fields: Seq<Option<WireValue>>) -> Option<
        ErrView,
    >;

    /// Encoding `self` succeeds with the payload `(shape, fields)`.
    spec fn object_encode_ok(
        self,
        shape: Seq<String>,
        fields: Seq<Option<WireValue>>,
    ) -> bool;

    /// The error view on which encoding `self` fails.
    spec fn object_encode_err(self) -> Option<ErrView>;

    fn from_edgedb_object(shape: Vec<String>, fields: Vec<Option<WireValue>>) -> (r: Result<
        Self,
        DecodeError,
    >)
        ensures
            (match r {
                Ok(out) => Self::object_decode_ok(shape@, fields@, out)
                    && Self::object_decode_err(shape@, fields@) is None,
                Err(e) => Self::object_decode_err(shape@, fields@) == Some(err_view(e)),
            }),
    ;

    fn to_edgedb_object(self) -> (r: Result<(Vec<String>, Vec<Option<WireValue>>), DecodeError>)
        ensures
            (match r {
                Ok(p) => self.object_encode_ok(p.0@, p.1@) && self.object_encode_err() is None,
                Err(e) => self.object_encode_err() == Some(err_view(e)),
            }),
    ;
}

/// Decoding a wire value as an object type succeeds with `out`.
pub open spec fn obj_value_decode_ok<T: EdgedbObject>(v: WireValue, out: T) -> bool {
    match v {
        WireValue::Object { shape, fields } => T::object_decode_ok(shape@, fields@, out),
        _ => false,
    }
}

/// The error view on which decoding a wire value as an object type fails.
pub open spec fn obj_value_decode_err<T: EdgedbObject>(v: WireValue) -> Option<ErrView> {
    match v {
        WireValue::Object { shape, fields } => T::object_decode_err(shape@, fields@),
        _ => Some((DecodeErrorKind::ExpectedObject, None)),
    }
}

/// Encoding an object type succeeds with the wire value `w`.
pub open spec fn obj_value_encode_ok<T: EdgedbObject>(x: T, w: WireValue) -> bool {
    match w {
        WireValue::Object { shape, fields } => x.object_encode_ok(shape@, fields@),
        _ => false,
    }
}

/// Decodes a wire value that must be an object payload.
pub fn object_from_wire<T: EdgedbObject>(value: WireValue) -> (r: Result<T, DecodeError>)
    ensures
        (match r {
            Ok(out) => obj_value_decode_ok::<T>(value, out) && obj_value_decode_err::<T>(value)
                is None,
            Err(e) => obj_value_decode_err::<T>(value) == Some(err_view(e)),
        }),
{
    match value {
        WireValue::Object { shape, fields } => T::from_edgedb_object(shape, fields),
        _ => Err(DecodeError::new(DecodeErrorKind::ExpectedObject)),
    }
}

/// Encodes an object type as a wire object payload.
pub fn object_to_wire<T: EdgedbObject>(x: T) -> (r: Result<WireValue, DecodeError>)
    ensures
        (match r {
            Ok(w) => obj_value_encode_ok::<T>(x, w) && x.object_encode_err() is None,
            Err(e) => x.object_encode_err() == Some(err_view(e)),
        }),
{
    match x.to_edgedb_object() {
        Ok(p) => {
            let (shape, fields) = p;
            Ok(WireValue::Object { shape, fields })
        },
        Err(e) => Err(e),
    }
}

} // verus!
