//! Value and cardinality codec.
//!
//! [`EdgedbValue`] converts one wire value to or from one native value.
//! [`EdgedbSetValue`] adds the cardinality semantics on top of it: a bare
//! type expects exactly one value, `Option` at most one, `Vec` a wire set of
//! any size, and a non-empty vector a wire set with at least one element.
//!
//! Both traits state decoding relationally: `..._decode_ok(v, out)` says that
//! `v` decodes to `out`, and `..._decode_err(v)` gives the error view on
//! which decoding fails (`None` exactly when it succeeds).

use vstd::prelude::*;

use crate::prim::EdgedbPrim;
use crate::wire::{err_view, Cardinality, DecodeError, DecodeErrorKind, ErrView, WireValue};

verus! {

/// Conversion between one wire value and one native value.
pub trait EdgedbValue: Sized {
    /// Decoding `v` succeeds with the result `out`.
    spec fn value_decode_ok(v: WireValue, out: Self) -> bool;

    /// The error view on which decoding `v` fails, `None` when it succeeds.
    spec fn value_decode_err(v: WireValue) -> Option<ErrView>;

    /// Encoding `self` succeeds with the wire value `w`.
    spec fn value_encode_ok(self, w: WireValue) -> bool;

    /// The error view on which encoding `self` fails.
    spec fn value_encode_err(self) -> Option<ErrView>;

    fn from_edgedb_value(value: WireValue) -> (r: Result<Self, DecodeError>)
        ensures
            (match r {
                Ok(out) => Self::value_decode_ok(value, out) && Self::value_decode_err(value)
                    is None,
                Err(e) => Self::value_decode_err(value) == Some(err_view(e)),
            }),
    ;

    fn to_edgedb_value(self) -> (r: Result<WireValue, DecodeError>)
        ensures
            (match r {
                Ok(w) => self.value_encode_ok(w) && self.value_encode_err() is None,
                Err(e) => self.value_encode_err() == Some(err_view(e)),
            }),
    ;
}

/// The cardinality-aware codec: how a whole query result (or one object
/// field) of this type is decoded from and encoded to the wire.
pub trait EdgedbSetValue: Sized {
    /// Decoding `v` under this type's cardinality succeeds with `out`.
    spec fn set_decode_ok(v: WireValue, out: Self) -> bool;

    /// The error view on which decoding `v` fails, `None` when it succeeds.
    spec fn set_decode_err(v: WireValue) -> Option<ErrView>;

    /// Encoding `self` succeeds with the wire value `w`.
    spec fn set_encode_ok(self, w: WireValue) -> bool;

    /// The error view on which encoding `self` fails.
    spec fn set_encode_err(self) -> Option<ErrView>;

    /// Interpreting a possibly-absent slot succeeds with `out`.
    spec fn interp_missing_ok(val: Option<Self>, out: Self) -> bool;

    /// The error view on which an absent slot is rejected.
    spec fn interp_missing_err(val: Option<Self>) -> Option<ErrView>;

    /// The cardinality this type expects of the wire response.
    spec fn cardinality_spec() -> Cardinality;

    /// Law: interpreting a slot that does hold a value never errs; only an
    /// absent slot can be rejected.
    proof fn lemma_interp_some_ok(x: Self)
        ensures
            Self::interp_missing_err(Some(x)) is None,
    ;

    fn expected_cardinality() -> (r: Cardinality)
        ensures
            r == Self::cardinality_spec(),
    ;

    fn from_edgedb_set_value(value: WireValue) -> (r: Result<Self, DecodeError>)
        ensures
            (match r {
                Ok(out) => Self::set_decode_ok(value, out) && Self::set_decode_err(value) is None,
                Err(e) => Self::set_decode_err(value) == Some(err_view(e)),
            }),
    ;

    fn to_edgedb_set_value(self) -> (r: Result<WireValue, DecodeError>)
        ensures
            (match r {
                Ok(w) => self.set_encode_ok(w) && self.set_encode_err() is None,
                Err(e) => self.set_encode_err() == Some(err_view(e)),
            }),
    ;

    /// How an absent object field is interpreted: an error for a required
    /// (cardinality-one or at-least-one) type, a default for the others.
    fn interpret_possibly_missing_required_value(val: Option<Self>) -> (r: Result<
        Self,
        DecodeError,
    >)
        ensures
            (match r {
                Ok(out) => Self::interp_missing_ok(val, out) && Self::interp_missing_err(val)
                    is None,
                Err(e) => Self::interp_missing_err(val) == Some(err_view(e)),
            }),
    ;
}

/// The first error view among the element-wise decodings of `vals`, in order.
pub open spec fn seq_first_decode_err<T: EdgedbValue>(vals: Seq<WireValue>) -> Option<ErrView>
    decreases vals.len(),
{
    if vals.len() == 0 {
        None
    } else {
        match T::value_decode_err(vals[0]) {
            Some(e) => Some(e),
            None => seq_first_decode_err::<T>(vals.skip(1)),
        }
    }
}

/// The first error view among the element-wise encodings of `items`.
pub open spec fn seq_first_encode_err<T: EdgedbValue>(items: Seq<T>) -> Option<ErrView>
    decreases items.len(),
{
    if items.len() == 0 {
        None
    } else {
        match items[0].value_encode_err() {
            Some(e) => Some(e),
            None => seq_first_encode_err::<T>(items.skip(1)),
        }
    }
}

proof fn lemma_seq_first_decode_err_prefix_ok<T: EdgedbValue>(vals: Seq<WireValue>, i: int)
    requires
        0 <= i <= vals.len(),
        forall|j: int| 0 <= j < i ==> T::value_decode_err(#[trigger] vals[j]) is None,
    ensures
        seq_first_decode_err::<T>(vals) == seq_first_decode_err::<T>(vals.skip(i)),
    decreases i,
{
    if i > 0 {
        assert(seq_first_decode_err::<T>(vals) == seq_first_decode_err::<T>(vals.skip(1)));
        assert(forall|j: int|
            0 <= j < i - 1 ==> T::value_decode_err(#[trigger] vals.skip(1)[j]) is None);
        lemma_seq_first_decode_err_prefix_ok::<T>(vals.skip(1), i - 1);
        assert(vals.skip(1).skip(i - 1) =~= vals.skip(i));
    } else {
        assert(vals.skip(0) =~= vals);
    }
}

proof fn lemma_seq_first_encode_err_prefix_ok<T: EdgedbValue>(items: Seq<T>, i: int)
    requires
        0 <= i <= items.len(),
        forall|j: int| 0 <= j < i ==> (#[trigger] items[j]).value_encode_err() is None,
    ensures
        seq_first_encode_err::<T>(items) == seq_first_encode_err::<T>(items.skip(i)),
    decreases i,
{
    if i > 0 {
        assert(seq_first_encode_err::<T>(items) == seq_first_encode_err::<T>(items.skip(1)));
        assert(forall|j: int|
            0 <= j < i - 1 ==> (#[trigger] items.skip(1)[j]).value_encode_err() is None);
        lemma_seq_first_encode_err_prefix_ok::<T>(items.skip(1), i - 1);
        assert(items.skip(1).skip(i - 1) =~= items.skip(i));
    } else {
        assert(items.skip(0) =~= items);
    }
}

/// A bare type expects exactly one value: the wire value is handed to the
/// one-value codec unchanged, and an absent slot is an error.
impl<T: EdgedbValue> EdgedbSetValue for T {
    open spec fn set_decode_ok(v: WireValue, out: T) -> bool {
        T::value_decode_ok(v, out)
    }

    open spec fn set_decode_err(v: WireValue) -> Option<ErrView> {
        T::value_decode_err(v)
    }

    open spec fn set_encode_ok(self, w: WireValue) -> bool {
        self.value_encode_ok(w)
    }

    open spec fn set_encode_err(self) -> Option<ErrView> {
        self.value_encode_err()
    }

    open spec fn interp_missing_ok(val: Option<T>, out: T) -> bool {
        val == Some(out)
    }

    open spec fn interp_missing_err(val: Option<T>) -> Option<ErrView> {
        match val {
            Some(_) => None,
            None => Some((DecodeErrorKind::MissingRequired, None)),
        }
    }

    open spec fn cardinality_spec() -> Cardinality {
        Cardinality::One
    }

    proof fn lemma_interp_some_ok(x: T) {
    }

    fn expected_cardinality() -> Cardinality {
        Cardinality::One
    }

    fn from_edgedb_set_value(value: WireValue) -> Result<Self, DecodeError> {
        T::from_edgedb_value(value)
    }

    fn to_edgedb_set_value(self) -> Result<WireValue, DecodeError> {
        self.to_edgedb_value()
    }

    fn interpret_possibly_missing_required_value(val: Option<Self>) -> Result<Self, DecodeError> {
        match val {
            Some(v) => Ok(v),
            None => Err(DecodeError::new(DecodeErrorKind::MissingRequired)),
        }
    }
}

/// `Option` expects at most one value: the wire "nothing" marker decodes to
/// `None`, anything else to `Some`; an absent slot flattens to `None`.
impl<T: EdgedbValue> EdgedbSetValue for Option<T> {
    open spec fn set_decode_ok(v: WireValue, out: Option<T>) -> bool {
        match v {
            WireValue::Nothing => out is None,
            _ => match out {
                Some(x) => T::value_decode_ok(v, x),
                None => false,
            },
        }
    }

    open spec fn set_decode_err(v: WireValue) -> Option<ErrView> {
        match v {
            WireValue::Nothing => None,
            _ => T::value_decode_err(v),
        }
    }

    open spec fn set_encode_ok(self, w: WireValue) -> bool {
        match self {
            None => w == WireValue::Nothing,
            Some(x) => x.value_encode_ok(w),
        }
    }

    open spec fn set_encode_err(self) -> Option<ErrView> {
        match self {
            None => None,
            Some(x) => x.value_encode_err(),
        }
    }

    open spec fn interp_missing_ok(val: Option<Option<T>>, out: Option<T>) -> bool {
        match val {
            Some(inner) => out == inner,
            None => out is None,
        }
    }

    open spec fn interp_missing_err(val: Option<Option<T>>) -> Option<ErrView> {
        None
    }

    open spec fn cardinality_spec() -> Cardinality {
        Cardinality::AtMostOne
    }

    proof fn lemma_interp_some_ok(x: Option<T>) {
    }

    fn expected_cardinality() -> Cardinality {
        Cardinality::AtMostOne
    }

    fn from_edgedb_set_value(value: WireValue) -> Result<Self, DecodeError> {
        match value {
            WireValue::Nothing => Ok(None),
            v => match T::from_edgedb_value(v) {
                Ok(x) => Ok(Some(x)),
                Err(e) => Err(e),
            },
        }
    }

    fn to_edgedb_set_value(self) -> Result<WireValue, DecodeError> {
        match self {
            Some(x) => x.to_edgedb_value(),
            None => Ok(WireValue::Nothing),
        }
    }

    fn interpret_possibly_missing_required_value(val: Option<Self>) -> Result<Self, DecodeError> {
        match val {
            Some(inner) => Ok(inner),
            None => Ok(None),
        }
    }
}

/// `Vec` expects a wire set of any size, decoded element-wise in wire order,
/// duplicates preserved. Any other wire shape in this slot — including the
/// "nothing" marker, arrays and bare objects — is rejected rather than
/// coerced. An absent slot is an empty vector.
impl<T: EdgedbValue> EdgedbSetValue for Vec<T> {
    open spec fn set_decode_ok(v: WireValue, out: Vec<T>) -> bool {
        match v {
            WireValue::Rows(vals) => out@.len() == vals@.len() && (forall|i: int|
                0 <= i < vals@.len() ==> T::value_decode_ok(vals@[i], #[trigger] out@[i])),
            _ => false,
        }
    }

    open spec fn set_decode_err(v: WireValue) -> Option<ErrView> {
        match v {
            WireValue::Rows(vals) => seq_first_decode_err::<T>(vals@),
            _ => Some((DecodeErrorKind::ExpectedSet, None)),
        }
    }

    open spec fn set_encode_ok(self, w: WireValue) -> bool {
        match w {
            WireValue::Rows(ws) => ws@.len() == self@.len() && (forall|i: int|
                0 <= i < self@.len() ==> self@[i].value_encode_ok(#[trigger] ws@[i])),
            _ => false,
        }
    }

    open spec fn set_encode_err(self) -> Option<ErrView> {
        seq_first_encode_err::<T>(self@)
    }

    open spec fn interp_missing_ok(val: Option<Vec<T>>, out: Vec<T>) -> bool {
        match val {
            Some(v) => out == v,
            None => out@.len() == 0,
        }
    }

    open spec fn interp_missing_err(val: Option<Vec<T>>) -> Option<ErrView> {
        None
    }

    open spec fn cardinality_spec() -> Cardinality {
        Cardinality::Many
    }

    proof fn lemma_interp_some_ok(x: Vec<T>) {
    }

    fn expected_cardinality() -> Cardinality {
        Cardinality::Many
    }

    fn from_edgedb_set_value(value: WireValue) -> Result<Self, DecodeError> {
        match value {
            WireValue::Rows(vals) => decode_elements(vals),
            _ => Err(DecodeError::new(DecodeErrorKind::ExpectedSet)),
        }
    }

    fn to_edgedb_set_value(self) -> Result<WireValue, DecodeError> {
        match encode_elements(self) {
            Ok(ws) => Ok(WireValue::Rows(ws)),
            Err(e) => Err(e),
        }
    }

    fn interpret_possibly_missing_required_value(val: Option<Self>) -> Result<Self, DecodeError> {
        match val {
            Some(v) => Ok(v),
            None => Ok(Vec::new()),
        }
    }
}

/// Decodes every element of a wire set, in order, stopping at the first
/// failing element.
#[verifier::loop_isolation(false)]
pub fn decode_elements<T: EdgedbValue>(vals: Vec<WireValue>) -> (r: Result<Vec<T>, DecodeError>)
    ensures
        (match r {
            Ok(out) => out@.len() == vals@.len() && (forall|i: int|
                0 <= i < vals@.len() ==> T::value_decode_ok(vals@[i], #[trigger] out@[i]))
                && seq_first_decode_err::<T>(vals@) is None,
            Err(e) => seq_first_decode_err::<T>(vals@) == Some(err_view(e)),
        }),
{
    let ghost all = vals@;
    let mut rest = vals;
    let mut out: Vec<T> = Vec::new();
    proof {
        assert(all.skip(0) =~= all);
    }
    loop
        invariant
            out@.len() + rest@.len() == all.len(),
            rest@ == all.skip(out@.len() as int),
            forall|j: int|
                #![trigger all[j]]
                #![trigger out@[j]]
                0 <= j < out@.len() ==> T::value_decode_ok(all[j], out@[j])
                    && T::value_decode_err(all[j]) is None,
        decreases rest@.len(),
    {
        if rest.len() == 0 {
            proof {
                lemma_seq_first_decode_err_prefix_ok::<T>(all, out@.len() as int);
                assert(all.skip(all.len() as int).len() == 0);
                assert(seq_first_decode_err::<T>(all.skip(all.len() as int)) is None);
            }
            return Ok(out);
        }
        let ghost i = out@.len() as int;
        let v = rest.remove(0);
        proof {
            assert(v == all[i]);
            assert(rest@ =~= all.skip(i + 1));
        }
        match T::from_edgedb_value(v) {
            Ok(x) => out.push(x),
            Err(e) => {
                proof {
                    lemma_seq_first_decode_err_prefix_ok::<T>(all, i);
                    assert(all.skip(i)[0] == all[i]);
                    assert(all.skip(i).len() > 0);
                    assert(seq_first_decode_err::<T>(all.skip(i)) == Some(err_view(e)));
                }
                return Err(e);
            },
        }
    }
}

/// Encodes every element, in order, stopping at the first failing element.
#[verifier::loop_isolation(false)]
pub fn encode_elements<T: EdgedbValue>(items: Vec<T>) -> (r: Result<Vec<WireValue>, DecodeError>)
    ensures
        (match r {
            Ok(ws) => ws@.len() == items@.len() && (forall|i: int|
                0 <= i < items@.len() ==> items@[i].value_encode_ok(#[trigger] ws@[i]))
                && seq_first_encode_err::<T>(items@) is None,
            Err(e) => seq_first_encode_err::<T>(items@) == Some(err_view(e)),
        }),
{
    let ghost all = items@;
    let mut rest = items;
    let mut out: Vec<WireValue> = Vec::new();
    proof {
        assert(all.skip(0) =~= all);
    }
    loop
        invariant
            out@.len() + rest@.len() == all.len(),
            rest@ == all.skip(out@.len() as int),
            forall|j: int|
                #![trigger all[j]]
                #![trigger out@[j]]
                0 <= j < out@.len() ==> all[j].value_encode_ok(out@[j])
                    && all[j].value_encode_err() is None,
        decreases rest@.len(),
    {
        if rest.len() == 0 {
            proof {
                lemma_seq_first_encode_err_prefix_ok::<T>(all, out@.len() as int);
                assert(all.skip(all.len() as int).len() == 0);
                assert(seq_first_encode_err::<T>(all.skip(all.len() as int)) is None);
            }
            return Ok(out);
        }
        let ghost i = out@.len() as int;
        let x = rest.remove(0);
        proof {
            assert(x == all[i]);
            assert(rest@ =~= all.skip(i + 1));
        }
        match x.to_edgedb_value() {
            Ok(w) => out.push(w),
            Err(e) => {
                proof {
                    lemma_seq_first_encode_err_prefix_ok::<T>(all, i);
                    assert(all.skip(i)[0] == all[i]);
                    assert(all.skip(i).len() > 0);
                    assert(seq_first_encode_err::<T>(all.skip(i)) == Some(err_view(e)));
                }
                return Err(e);
            },
        }
    }
}

/// Every primitive type converts as one wire value through its own codec;
/// primitive encoding never fails.
impl<T: EdgedbPrim> EdgedbValue for T {
    open spec fn value_decode_ok(v: WireValue, out: T) -> bool {
        T::prim_decode_ok(v, out)
    }

    open spec fn value_decode_err(v: WireValue) -> Option<ErrView> {
        match T::prim_decode_err(v) {
            Some(k) => Some((k, None)),
            None => None,
        }
    }

    open spec fn value_encode_ok(self, w: WireValue) -> bool {
        w == self.prim_encode()
    }

    open spec fn value_encode_err(self) -> Option<ErrView> {
        None
    }

    fn from_edgedb_value(value: WireValue) -> Result<Self, DecodeError> {
        T::from_edgedb_val(value)
    }

    fn to_edgedb_value(self) -> Result<WireValue, DecodeError> {
        self.to_edgedb_val()
    }
}

/// The unit type stands for a query with no interesting result; it converts
/// to and from the wire's "nothing" marker.
impl EdgedbValue for () {
    open spec fn value_decode_ok(v: WireValue, out: ()) -> bool {
        v == WireValue::Nothing
    }

    open spec fn value_decode_err(v: WireValue) -> Option<ErrView> {
        match v {
            WireValue::Nothing => None,
            _ => Some((DecodeErrorKind::Unexpected(v), None)),
        }
    }

    open spec fn value_encode_ok(self, w: WireValue) -> bool {
        w == WireValue::Nothing
    }

    open spec fn value_encode_err(self) -> Option<ErrView> {
        None
    }

    fn from_edgedb_value(value: WireValue) -> Result<Self, DecodeError> {
        match value {
            WireValue::Nothing => Ok(()),
            v => Err(DecodeError::new(DecodeErrorKind::Unexpected(v))),
        }
    }

    fn to_edgedb_value(self) -> Result<WireValue, DecodeError> {
        Ok(WireValue::Nothing)
    }
}


/// Cardinality enforcement: a wire set — whatever its size — never decodes
/// into a bare (exactly-one) scalar slot.
pub proof fn lemma_one_rejects_set(vals: Vec<WireValue>, out: String)
    ensures
        !<String as EdgedbSetValue>::set_decode_ok(WireValue::Rows(vals), out),
        <String as EdgedbSetValue>::set_decode_err(WireValue::Rows(vals)) is Some,
{
}

/// Cardinality enforcement: the wire "nothing" marker never decodes into a
/// required scalar slot, and an absent required slot is an error.
pub proof fn lemma_required_rejects_nothing(out: String)
    ensures
        !<String as EdgedbSetValue>::set_decode_ok(WireValue::Nothing, out),
        <String as EdgedbSetValue>::set_decode_err(WireValue::Nothing) is Some,
        <String as EdgedbSetValue>::interp_missing_err(None) == Some::<ErrView>(
            (DecodeErrorKind::MissingRequired, None),
        ),
{
}

/// Cardinality enforcement: the wire "nothing" marker decodes into an
/// optional slot as the absent value, and an absent optional slot succeeds
/// as absent.
pub proof fn lemma_optional_accepts_nothing<T: EdgedbValue>()
    ensures
        <Option<T> as EdgedbSetValue>::set_decode_ok(WireValue::Nothing, None),
        <Option<T> as EdgedbSetValue>::set_decode_err(WireValue::Nothing) is None,
        <Option<T> as EdgedbSetValue>::interp_missing_ok(None, None),
        <Option<T> as EdgedbSetValue>::interp_missing_err(None) is None,
{
}

/// An `Option` slot never nests: interpreting an absent or present slot
/// flattens to a single level of optionality.
pub proof fn lemma_optional_flattens<T: EdgedbValue>(val: Option<Option<T>>, out: Option<T>)
    requires
        <Option<T> as EdgedbSetValue>::interp_missing_ok(val, out),
    ensures
        out == (match val {
            Some(inner) => inner,
            None => None::<T>,
        }),
{
}


/// Round trip through a set slot, for any element type whose own encoding
/// decodes back: whatever a vector encodes to decodes back to the same
/// vector, element for element.
pub proof fn lemma_set_round_trip_vec<T: EdgedbValue>(items: Vec<T>, w: WireValue)
    requires
        <Vec<T> as EdgedbSetValue>::set_encode_ok(items, w),
        forall|x: T, wv: WireValue| #[trigger] T::value_encode_ok(x, wv) ==> T::value_decode_ok(
            wv,
            x,
        ),
    ensures
        <Vec<T> as EdgedbSetValue>::set_decode_ok(w, items),
{
}

/// Round trip through an optional slot: whatever an optional value encodes
/// to decodes back to the same optional value.
pub proof fn lemma_set_round_trip_option<T: EdgedbValue>(item: Option<T>, w: WireValue)
    requires
        <Option<T> as EdgedbSetValue>::set_encode_ok(item, w),
        forall|x: T, wv: WireValue| #[trigger] T::value_encode_ok(x, wv) ==> T::value_decode_ok(
            wv,
            x,
        ),
        forall|x: T| !T::value_decode_ok(WireValue::Nothing, x),
    ensures
        <Option<T> as EdgedbSetValue>::set_decode_ok(w, item),
{
}

} // verus!
