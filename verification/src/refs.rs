//! Graph references. A [`Ref`] always carries the referenced object's id and,
//! when the query's selector fetched more than the id, the materialized value.

use vstd::prelude::*;

use crate::object::{fields_after_take, take_field, taken, EdgedbObject};
use crate::prim::EdgedbPrim;
use crate::value::EdgedbValue;
use crate::wire::{DecodeError, DecodeErrorKind, ErrView, Uuid, WireValue};

verus! {

/// A typed reference: an id, plus the referenced object's value when the
/// selector fetched fields beyond the id.
///
/// A `Ref` is constructed only while decoding a query response. It does not
/// re-encode to the wire: what a reference should write back (the id alone,
/// or the whole object) is deliberately left undefined, and encoding one is
/// an error.
#[derive(Debug, PartialEq, Eq)]
pub struct Ref<T: EdgedbObject> {
    pub id: Uuid,
    pub known_value: Option<T>,
}

impl<T: EdgedbObject> EdgedbValue for Ref<T> {
    open spec fn value_decode_ok(v: WireValue, out: Ref<T>) -> bool {
        match v {
            WireValue::Object { shape, fields } => match taken(shape@, fields@, "id"@) {
                Some(idw) => <Uuid as EdgedbPrim>::prim_decode_ok(idw, out.id) && (if shape@.len()
                    == 1 {
                    out.known_value is None
                } else {
                    match out.known_value {
                        Some(t) => T::object_decode_ok(
                            shape@,
                            fields_after_take(shape@, fields@, "id"@),
                            t,
                        ),
                        None => false,
                    }
                }),
                None => false,
            },
            _ => false,
        }
    }

    open spec fn value_decode_err(v: WireValue) -> Option<ErrView> {
        match v {
            WireValue::Object { shape, fields } => match taken(shape@, fields@, "id"@) {
                Some(idw) => match <Uuid as EdgedbPrim>::prim_decode_err(idw) {
                    Some(k) => Some((k, None)),
                    None => if shape@.len() == 1 {
                        None
                    } else {
                        T::object_decode_err(shape@, fields_after_take(shape@, fields@, "id"@))
                    },
                },
                None => Some((DecodeErrorKind::ExpectedId, None)),
            },
            _ => Some((DecodeErrorKind::ExpectedObject, None)),
        }
    }

    open spec fn value_encode_ok(self, w: WireValue) -> bool {
        false
    }

    open spec fn value_encode_err(self) -> Option<ErrView> {
        Some((DecodeErrorKind::RefEncodingUnsupported, None))
    }

    fn from_edgedb_value(value: WireValue) -> Result<Self, DecodeError> {
        match value {
            WireValue::Object { shape, fields } => {
                let mut fields = fields;
                let idw = match take_field(&shape, &mut fields, "id") {
                    Some(w) => w,
                    None => {
                        return Err(DecodeError::new(DecodeErrorKind::ExpectedId));
                    },
                };
                let id = match Uuid::from_edgedb_val(idw) {
                    Ok(u) => u,
                    Err(e) => {
                        return Err(e);
                    },
                };
                if shape.len() == 1 {
                    Ok(Ref { id, known_value: None })
                } else {
                    match T::from_edgedb_object(shape, fields) {
                        Ok(t) => Ok(Ref { id, known_value: Some(t) }),
                        Err(e) => Err(e),
                    }
                }
            },
            _ => Err(DecodeError::new(DecodeErrorKind::ExpectedObject)),
        }
    }

    fn to_edgedb_value(self) -> Result<WireValue, DecodeError> {
        Err(DecodeError::new(DecodeErrorKind::RefEncodingUnsupported))
    }
}

/// A decoded reference holds a materialized value exactly when the wire
/// object carried more than the id element, and that value is what the
/// remaining payload (the shape with the id slot cleared) decodes to
/// directly under the referenced type.
pub proof fn lemma_ref_known_value<T: EdgedbObject>(
    shape: Vec<String>,
    fields: Vec<Option<WireValue>>,
    out: Ref<T>,
)
    requires
        <Ref<T> as EdgedbValue>::value_decode_ok(WireValue::Object { shape, fields }, out),
    ensures
        shape@.len() == 1 ==> out.known_value is None,
        shape@.len() != 1 ==> (match out.known_value {
            Some(t) => T::object_decode_ok(shape@, fields_after_take(shape@, fields@, "id"@), t),
            None => false,
        }),
{
}

} // verus!
