//! Concrete result structures, written exactly the way the attribute-driven
//! front-end expands an annotated structure: one [`EdgedbObject`] impl per
//! structure, decoding each declared field by name through the object mapper.

use vstd::prelude::*;

use crate::object::{
    decode_object_field, field_decode_err, field_decode_ok, fields_after_take, obj_value_decode_err,
    obj_value_decode_ok, obj_value_encode_ok, object_from_wire, object_to_wire, EdgedbObject,
};
use crate::value::{EdgedbSetValue, EdgedbValue};
use crate::wire::{DecodeError, ErrView, WireValue};

verus! {

/// A two-coordinate result row: the simplest named-field structure.
#[derive(Debug, Clone, Copy, PartialEq, Eq, Structural)]
pub struct Point {
    pub x: i32,
    pub y: i32,
}

impl EdgedbObject for Point {
    open spec fn object_decode_ok(
        shape: Seq<String>,
        fields: Seq<Option<WireValue>>,
        out: Point,
    ) -> bool {
        field_decode_ok::<i32>(shape, fields, "x"@, out.x) && field_decode_ok::<i32>(
            shape,
            fields_after_take(shape, fields, "x"@),
            "y"@,
            out.y,
        )
    }

    open spec fn object_decode_err(shape: Seq<String>, fields: Seq<Option<WireValue>>) -> Option<
        ErrView,
    > {
        match field_decode_err::<i32>(shape, fields, "x"@) {
            Some(e) => Some(e),
            None => field_decode_err::<i32>(shape, fields_after_take(shape, fields, "x"@), "y"@),
        }
    }

    open spec fn object_encode_ok(
        self,
        shape: Seq<String>,
        fields: Seq<Option<WireValue>>,
    ) -> bool {
        &&& shape.len() == 2
        &&& shape[0]@ == "x"@
        &&& shape[1]@ == "y"@
        &&& fields.len() == 2
        &&& match fields[0] {
            Some(w) => <i32 as EdgedbSetValue>::set_encode_ok(self.x, w),
            None => false,
        }
        &&& match fields[1] {
            Some(w) => <i32 as EdgedbSetValue>::set_encode_ok(self.y, w),
            None => false,
        }
    }

    open spec fn object_encode_err(self) -> Option<ErrView> {
        None
    }

    fn from_edgedb_object(shape: Vec<String>, mut fields: Vec<Option<WireValue>>) -> Result<
        Self,
        DecodeError,
    > {
        let x = match decode_object_field::<i32>(&shape, &mut fields, "x") {
            Ok(v) => v,
            Err(e) => {
                return Err(e);
            },
        };
        let y = match decode_object_field::<i32>(&shape, &mut fields, "y") {
            Ok(v) => v,
            Err(e) => {
                return Err(e);
            },
        };
        Ok(Point { x, y })
    }

    fn to_edgedb_object(self) -> Result<(Vec<String>, Vec<Option<WireValue>>), DecodeError> {
        let xw = match self.x.to_edgedb_set_value() {
            Ok(w) => w,
            Err(e) => {
                proof {
                    assert(false);
                }
                return Err(e);
            },
        };
        let yw = match self.y.to_edgedb_set_value() {
            Ok(w) => w,
            Err(e) => {
                proof {
                    assert(false);
                }
                return Err(e);
            },
        };
        let mut shape: Vec<String> = Vec::new();
        shape.push("x".to_owned());
        shape.push("y".to_owned());
        let mut fields: Vec<Option<WireValue>> = Vec::new();
        fields.push(Some(xw));
        fields.push(Some(yw));
        Ok((shape, fields))
    }
}

impl EdgedbValue for Point {
    open spec fn value_decode_ok(v: WireValue, out: Point) -> bool {
        obj_value_decode_ok::<Point>(v, out)
    }

    open spec fn value_decode_err(v: WireValue) -> Option<ErrView> {
        obj_value_decode_err::<Point>(v)
    }

    open spec fn value_encode_ok(self, w: WireValue) -> bool {
        obj_value_encode_ok::<Point>(self, w)
    }

    open spec fn value_encode_err(self) -> Option<ErrView> {
        self.object_encode_err()
    }

    fn from_edgedb_value(value: WireValue) -> Result<Self, DecodeError> {
        object_from_wire::<Point>(value)
    }

    fn to_edgedb_value(self) -> Result<WireValue, DecodeError> {
        object_to_wire::<Point>(self)
    }
}

/// A structure with one required and one optional text field, the recurring
/// example shape of this library.
#[derive(Debug, PartialEq, Eq)]
pub struct Inner {
    pub req: String,
    pub opt: Option<String>,
}

impl EdgedbObject for Inner {
    open spec fn object_decode_ok(
        shape: Seq<String>,
        fields: Seq<Option<WireValue>>,
        out: Inner,
    ) -> bool {
        field_decode_ok::<String>(shape, fields, "req"@, out.req) && field_decode_ok::<
            Option<String>,
        >(shape, fields_after_take(shape, fields, "req"@), "opt"@, out.opt)
    }

    open spec fn object_decode_err(shape: Seq<String>, fields: Seq<Option<WireValue>>) -> Option<
        ErrView,
    > {
        match field_decode_err::<String>(shape, fields, "req"@) {
            Some(e) => Some(e),
            None => field_decode_err::<Option<String>>(
                shape,
                fields_after_take(shape, fields, "req"@),
                "opt"@,
            ),
        }
    }

    open spec fn object_encode_ok(
        self,
        shape: Seq<String>,
        fields: Seq<Option<WireValue>>,
    ) -> bool {
        &&& shape.len() == 2
        &&& shape[0]@ == "req"@
        &&& shape[1]@ == "opt"@
        &&& fields.len() == 2
        &&& match fields[0] {
            Some(w) => <String as EdgedbSetValue>::set_encode_ok(self.req, w),
            None => false,
        }
        &&& match fields[1] {
            Some(w) => <Option<String> as EdgedbSetValue>::set_encode_ok(self.opt, w),
            None => false,
        }
    }

    open spec fn object_encode_err(self) -> Option<ErrView> {
        None
    }

    fn from_edgedb_object(shape: Vec<String>, mut fields: Vec<Option<WireValue>>) -> Result<
        Self,
        DecodeError,
    > {
        let req = match decode_object_field::<String>(&shape, &mut fields, "req") {
            Ok(v) => v,
            Err(e) => {
                return Err(e);
            },
        };
        let opt = match decode_object_field::<Option<String>>(&shape, &mut fields, "opt") {
            Ok(v) => v,
            Err(e) => {
                return Err(e);
            },
        };
        Ok(Inner { req, opt })
    }

    fn to_edgedb_object(self) -> Result<(Vec<String>, Vec<Option<WireValue>>), DecodeError> {
        let Inner { req, opt } = self;
        let rw = match req.to_edgedb_set_value() {
            Ok(w) => w,
            Err(e) => {
                proof {
                    assert(false);
                }
                return Err(e);
            },
        };
        let ow = match opt.to_edgedb_set_value() {
            Ok(w) => w,
            Err(e) => {
                proof {
                    assert(false);
                }
                return Err(e);
            },
        };
        let mut shape: Vec<String> = Vec::new();
        shape.push("req".to_owned());
        shape.push("opt".to_owned());
        let mut fields: Vec<Option<WireValue>> = Vec::new();
        fields.push(Some(rw));
        fields.push(Some(ow));
        Ok((shape, fields))
    }
}

impl EdgedbValue for Inner {
    open spec fn value_decode_ok(v: WireValue, out: Inner) -> bool {
        obj_value_decode_ok::<Inner>(v, out)
    }

    open spec fn value_decode_err(v: WireValue) -> Option<ErrView> {
        obj_value_decode_err::<Inner>(v)
    }

    open spec fn value_encode_ok(self, w: WireValue) -> bool {
        obj_value_encode_ok::<Inner>(self, w)
    }

    open spec fn value_encode_err(self) -> Option<ErrView> {
        self.object_encode_err()
    }

    fn from_edgedb_value(value: WireValue) -> Result<Self, DecodeError> {
        object_from_wire::<Inner>(value)
    }

    fn to_edgedb_value(self) -> Result<WireValue, DecodeError> {
        object_to_wire::<Inner>(self)
    }
}


/// A wire object `{x, y}` holding two 32-bit integers decodes to exactly the
/// point with those coordinates.
pub proof fn lemma_point_decode(shape: Vec<String>, fields: Vec<Option<WireValue>>, out: Point)
    requires
        shape@.len() == 2,
        shape@[0]@ == "x"@,
        shape@[1]@ == "y"@,
        fields@.len() == 2,
        fields@[0] == Some(WireValue::Int32(out.x)),
        fields@[1] == Some(WireValue::Int32(out.y)),
    ensures
        Point::object_decode_ok(shape@, fields@, out),
        Point::object_decode_err(shape@, fields@) is None,
{
    reveal_strlit("x");
    reveal_strlit("y");
    assert("x"@[0] == 'x');
    assert("y"@[0] == 'y');
    assert("x"@ != "y"@) by {
        if "x"@ == "y"@ {
            assert("x"@[0] == "y"@[0]);
        }
    };
    assert(crate::object::find_name(shape@, "x"@) == Some(0int));
    assert(crate::object::taken(shape@, fields@, "x"@) == Some(WireValue::Int32(out.x)));
    assert(<i32 as EdgedbSetValue>::set_decode_ok(WireValue::Int32(out.x), out.x));
    assert(<i32 as EdgedbSetValue>::interp_missing_ok(Some(out.x), out.x));
    assert(field_decode_ok::<i32>(shape@, fields@, "x"@, out.x));
    let f2 = fields_after_take(shape@, fields@, "x"@);
    assert(f2 == fields@.update(0, None::<WireValue>));
    assert(shape@.skip(1)[0] == shape@[1]);
    assert(crate::object::find_name(shape@.skip(1), "y"@) == Some(0int));
    assert(crate::object::find_name(shape@, "y"@) == Some(1int));
    assert(f2[1] == Some(WireValue::Int32(out.y)));
    assert(crate::object::taken(shape@, f2, "y"@) == Some(WireValue::Int32(out.y)));
    assert(<i32 as EdgedbSetValue>::set_decode_ok(WireValue::Int32(out.y), out.y));
    assert(<i32 as EdgedbSetValue>::interp_missing_ok(Some(out.y), out.y));
    assert(field_decode_ok::<i32>(shape@, f2, "y"@, out.y));
}

/// A wire object holding only `x` fails to decode as a point, and the error
/// names the missing required field `y`.
pub proof fn lemma_point_missing_y(shape: Vec<String>, fields: Vec<Option<WireValue>>, v: i32)
    requires
        shape@.len() == 1,
        shape@[0]@ == "x"@,
        fields@.len() == 1,
        fields@[0] == Some(WireValue::Int32(v)),
    ensures
        Point::object_decode_err(shape@, fields@) == Some(
            (
                crate::wire::DecodeErrorKind::MissingRequired,
                Some("y"@),
            ),
        ),
{
    reveal_strlit("x");
    reveal_strlit("y");
    assert("x"@[0] == 'x');
    assert("y"@[0] == 'y');
    assert("x"@ != "y"@) by {
        if "x"@ == "y"@ {
            assert("x"@[0] == "y"@[0]);
        }
    };
    assert(crate::object::find_name(shape@, "x"@) == Some(0int));
    assert(crate::object::taken(shape@, fields@, "x"@) == Some(WireValue::Int32(v)));
    assert(field_decode_err::<i32>(shape@, fields@, "x"@) is None);
    let f2 = fields_after_take(shape@, fields@, "x"@);
    assert(shape@.skip(1).len() == 0);
    assert(crate::object::find_name(shape@.skip(1), "y"@) is None);
    assert(crate::object::find_name(shape@, "y"@) is None);
    assert(crate::object::taken(shape@, f2, "y"@) is None);
    assert(<i32 as EdgedbSetValue>::interp_missing_err(None) == Some(
        (crate::wire::DecodeErrorKind::MissingRequired, None::<Seq<char>>),
    ));
}

} // verus!
