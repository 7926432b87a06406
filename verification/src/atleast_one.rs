//! The at-least-one cardinality, carried by the `nonempty` crate's
//! `NonEmpty` vector: a wire set with at least one element decodes into it,
//! and an empty set (or an absent slot) is rejected.

use vstd::prelude::*;

use crate::value::{
    decode_elements, encode_elements, seq_first_decode_err, seq_first_encode_err, EdgedbSetValue,
    EdgedbValue,
};
use crate::wire::{Cardinality, DecodeError, DecodeErrorKind, ErrView, WireValue};

verus! {

/// `nonempty::NonEmpty` is a head element plus a tail vector, both public;
/// Verus reads the fields directly from this declaration.
#[verifier::external_type_specification]
pub struct ExNonEmpty<T>(nonempty::NonEmpty<T>);

/// Relies on `nonempty::NonEmpty::from_vec`: `None` exactly on an empty
/// vector, otherwise the first element becomes the head and the rest the
/// tail.
pub assume_specification<T>[ nonempty::NonEmpty::<T>::from_vec ](vec: Vec<T>) -> (r: Option<
    nonempty::NonEmpty<T>,
>)
    ensures
        (match r {
            Some(ne) => vec@.len() > 0 && ne.head == vec@[0] && ne.tail@ == vec@.skip(1),
            None => vec@.len() == 0,
        }),
;

impl<T: EdgedbValue> EdgedbSetValue for nonempty::NonEmpty<T> {
    open spec fn set_decode_ok(v: WireValue, out: nonempty::NonEmpty<T>) -> bool {
        match v {
            WireValue::Rows(vals) => vals@.len() > 0 && T::value_decode_ok(vals@[0], out.head)
                && out.tail@.len() == vals@.len() - 1 && (forall|i: int|
                0 <= i < out.tail@.len() ==> T::value_decode_ok(
                    vals@[i + 1],
                    #[trigger] out.tail@[i],
                )),
            _ => false,
        }
    }

    open spec fn set_decode_err(v: WireValue) -> Option<ErrView> {
        match v {
            WireValue::Rows(vals) => match seq_first_decode_err::<T>(vals@) {
                Some(e) => Some(e),
                None => if vals@.len() == 0 {
                    Some((DecodeErrorKind::ExpectedNonEmpty, None))
                } else {
                    None
                },
            },
            _ => Some((DecodeErrorKind::ExpectedSet, None)),
        }
    }

    open spec fn set_encode_ok(self, w: WireValue) -> bool {
        match w {
            WireValue::Rows(ws) => ws@.len() == 1 + self.tail@.len() && self.head.value_encode_ok(
                ws@[0],
            ) && (forall|i: int|
                0 <= i < self.tail@.len() ==> (#[trigger] self.tail@[i]).value_encode_ok(
                    ws@[i + 1],
                )),
            _ => false,
        }
    }

    open spec fn set_encode_err(self) -> Option<ErrView> {
        match self.head.value_encode_err() {
            Some(e) => Some(e),
            None => seq_first_encode_err::<T>(self.tail@),
        }
    }

    open spec fn interp_missing_ok(
        val: Option<nonempty::NonEmpty<T>>,
        out: nonempty::NonEmpty<T>,
    ) -> bool {
        val == Some(out)
    }

    open spec fn interp_missing_err(val: Option<nonempty::NonEmpty<T>>) -> Option<ErrView> {
        match val {
            Some(_) => None,
            None => Some((DecodeErrorKind::ExpectedNonEmpty, None)),
        }
    }

    open spec fn cardinality_spec() -> Cardinality {
        Cardinality::AtLeastOne
    }

    proof fn lemma_interp_some_ok(x: nonempty::NonEmpty<T>) {
    }

    fn expected_cardinality() -> Cardinality {
        Cardinality::AtLeastOne
    }

    fn from_edgedb_set_value(value: WireValue) -> Result<Self, DecodeError> {
        match value {
            WireValue::Rows(vals) => {
                let ghost vals0 = vals@;
                let decoded: Vec<T> = match decode_elements(vals) {
                    Ok(d) => d,
                    Err(e) => {
                        return Err(e);
                    },
                };
                let ghost dec = decoded@;
                match nonempty::NonEmpty::from_vec(decoded) {
                    Some(ne) => {
                        proof {
                            assert forall|i: int| 0 <= i < ne.tail@.len() implies T::value_decode_ok(
                                vals0[i + 1],
                                #[trigger] ne.tail@[i],
                            ) by {
                                assert(ne.tail@[i] == dec.skip(1)[i]);
                                assert(dec.skip(1)[i] == dec[i + 1]);
                            }
                        }
                        Ok(ne)
                    },
                    None => Err(DecodeError::new(DecodeErrorKind::ExpectedNonEmpty)),
                }
            },
            _ => Err(DecodeError::new(DecodeErrorKind::ExpectedSet)),
        }
    }

    fn to_edgedb_set_value(self) -> Result<WireValue, DecodeError> {
        let nonempty::NonEmpty { head, tail } = self;
        let hw = match head.to_edgedb_value() {
            Ok(w) => w,
            Err(e) => {
                return Err(e);
            },
        };
        let mut tws = match encode_elements(tail) {
            Ok(ws) => ws,
            Err(e) => {
                return Err(e);
            },
        };
        let mut ws: Vec<WireValue> = Vec::new();
        ws.push(hw);
        ws.append(&mut tws);
        Ok(WireValue::Rows(ws))
    }

    fn interpret_possibly_missing_required_value(val: Option<Self>) -> Result<Self, DecodeError> {
        match val {
            Some(v) => Ok(v),
            None => Err(DecodeError::new(DecodeErrorKind::ExpectedNonEmpty)),
        }
    }
}


/// Cardinality enforcement: an empty wire set never decodes into an
/// at-least-one slot, and the error says so.
pub proof fn lemma_at_least_one_rejects_empty<T: EdgedbValue>(
    vals: Vec<WireValue>,
    out: nonempty::NonEmpty<T>,
)
    requires
        vals@.len() == 0,
    ensures
        !<nonempty::NonEmpty<T> as EdgedbSetValue>::set_decode_ok(WireValue::Rows(vals), out),
        <nonempty::NonEmpty<T> as EdgedbSetValue>::set_decode_err(WireValue::Rows(vals))
            == Some::<ErrView>((DecodeErrorKind::ExpectedNonEmpty, None)),
{
    assert(seq_first_decode_err::<T>(vals@) is None);
}

} // verus!
