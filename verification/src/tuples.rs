//! Tuples convert to and from the wire's tuple container, element by
//! element, in order.

use vstd::prelude::*;

use crate::value::EdgedbValue;
use crate::wire::{DecodeError, DecodeErrorKind, ErrView, WireValue};

verus! {

impl<T0: EdgedbValue> EdgedbValue for (T0,) {
    open spec fn value_decode_ok(v: WireValue, out: (T0,)) -> bool {
        match v {
            WireValue::Tuple(vs) => vs@.len() == 1 && T0::value_decode_ok(vs@[0], out.0),
            _ => false,
        }
    }

    open spec fn value_decode_err(v: WireValue) -> Option<ErrView> {
        match v {
            WireValue::Tuple(vs) => if vs@.len() != 1 {
                Some((DecodeErrorKind::ExpectedTupleOfLen(1), None))
            } else {
                T0::value_decode_err(vs@[0])
            },
            _ => Some((DecodeErrorKind::Unexpected(v), None)),
        }
    }

    open spec fn value_encode_ok(self, w: WireValue) -> bool {
        match w {
            WireValue::Tuple(ws) => ws@.len() == 1 && self.0.value_encode_ok(ws@[0]),
            _ => false,
        }
    }

    open spec fn value_encode_err(self) -> Option<ErrView> {
        self.0.value_encode_err()
    }

    fn from_edgedb_value(value: WireValue) -> Result<Self, DecodeError> {
        match value {
            WireValue::Tuple(vs) => {
                if vs.len() != 1 {
                    return Err(DecodeError::new(DecodeErrorKind::ExpectedTupleOfLen(1)));
                }
                let mut vs = vs;
                let v0 = vs.remove(0);
                match T0::from_edgedb_value(v0) {
                    Ok(x0) => Ok((x0,)),
                    Err(e) => Err(e),
                }
            },
            v => Err(DecodeError::new(DecodeErrorKind::Unexpected(v))),
        }
    }

    fn to_edgedb_value(self) -> Result<WireValue, DecodeError> {
        let (a,) = self;
        let w0 = match a.to_edgedb_value() {
            Ok(w) => w,
            Err(e) => {
                return Err(e);
            },
        };
        let mut ws: Vec<WireValue> = Vec::new();
        ws.push(w0);
        Ok(WireValue::Tuple(ws))
    }
}

impl<T0: EdgedbValue, T1: EdgedbValue> EdgedbValue for (T0, T1) {
    open spec fn value_decode_ok(v: WireValue, out: (T0, T1)) -> bool {
        match v {
            WireValue::Tuple(vs) => vs@.len() == 2 && T0::value_decode_ok(vs@[0], out.0)
                && T1::value_decode_ok(vs@[1], out.1),
            _ => false,
        }
    }

    open spec fn value_decode_err(v: WireValue) -> Option<ErrView> {
        match v {
            WireValue::Tuple(vs) => if vs@.len() != 2 {
                Some((DecodeErrorKind::ExpectedTupleOfLen(2), None))
            } else {
                match T0::value_decode_err(vs@[0]) {
                    Some(e) => Some(e),
                    None => T1::value_decode_err(vs@[1]),
                }
            },
            _ => Some((DecodeErrorKind::Unexpected(v), None)),
        }
    }

    open spec fn value_encode_ok(self, w: WireValue) -> bool {
        match w {
            WireValue::Tuple(ws) => ws@.len() == 2 && self.0.value_encode_ok(ws@[0])
                && self.1.value_encode_ok(ws@[1]),
            _ => false,
        }
    }

    open spec fn value_encode_err(self) -> Option<ErrView> {
        match self.0.value_encode_err() {
            Some(e) => Some(e),
            None => self.1.value_encode_err(),
        }
    }

    fn from_edgedb_value(value: WireValue) -> Result<Self, DecodeError> {
        match value {
            WireValue::Tuple(vs) => {
                if vs.len() != 2 {
                    return Err(DecodeError::new(DecodeErrorKind::ExpectedTupleOfLen(2)));
                }
                let mut vs = vs;
                let v0 = vs.remove(0);
                let v1 = vs.remove(0);
                let x0 = match T0::from_edgedb_value(v0) {
                    Ok(x) => x,
                    Err(e) => {
                        return Err(e);
                    },
                };
                let x1 = match T1::from_edgedb_value(v1) {
                    Ok(x) => x,
                    Err(e) => {
                        return Err(e);
                    },
                };
                Ok((x0, x1))
            },
            v => Err(DecodeError::new(DecodeErrorKind::Unexpected(v))),
        }
    }

    fn to_edgedb_value(self) -> Result<WireValue, DecodeError> {
        let (a, b) = self;
        let w0 = match a.to_edgedb_value() {
            Ok(w) => w,
            Err(e) => {
                return Err(e);
            },
        };
        let w1 = match b.to_edgedb_value() {
            Ok(w) => w,
            Err(e) => {
                return Err(e);
            },
        };
        let mut ws: Vec<WireValue> = Vec::new();
        ws.push(w0);
        ws.push(w1);
        Ok(WireValue::Tuple(ws))
    }
}

impl<T0: EdgedbValue, T1: EdgedbValue, T2: EdgedbValue> EdgedbValue for (T0, T1, T2) {
    open spec fn value_decode_ok(v: WireValue, out: (T0, T1, T2)) -> bool {
        match v {
            WireValue::Tuple(vs) => vs@.len() == 3 && T0::value_decode_ok(vs@[0], out.0)
                && T1::value_decode_ok(vs@[1], out.1) && T2::value_decode_ok(vs@[2], out.2),
            _ => false,
        }
    }

    open spec fn value_decode_err(v: WireValue) -> Option<ErrView> {
        match v {
            WireValue::Tuple(vs) => if vs@.len() != 3 {
                Some((DecodeErrorKind::ExpectedTupleOfLen(3), None))
            } else {
                match T0::value_decode_err(vs@[0]) {
                    Some(e) => Some(e),
                    None => match T1::value_decode_err(vs@[1]) {
                        Some(e) => Some(e),
                        None => T2::value_decode_err(vs@[2]),
                    },
                }
            },
            _ => Some((DecodeErrorKind::Unexpected(v), None)),
        }
    }

    open spec fn value_encode_ok(self, w: WireValue) -> bool {
        match w {
            WireValue::Tuple(ws) => ws@.len() == 3 && self.0.value_encode_ok(ws@[0])
                && self.1.value_encode_ok(ws@[1]) && self.2.value_encode_ok(ws@[2]),
            _ => false,
        }
    }

    open spec fn value_encode_err(self) -> Option<ErrView> {
        match self.0.value_encode_err() {
            Some(e) => Some(e),
            None => match self.1.value_encode_err() {
                Some(e) => Some(e),
                None => self.2.value_encode_err(),
            },
        }
    }

    fn from_edgedb_value(value: WireValue) -> Result<Self, DecodeError> {
        match value {
            WireValue::Tuple(vs) => {
                if vs.len() != 3 {
                    return Err(DecodeError::new(DecodeErrorKind::ExpectedTupleOfLen(3)));
                }
                let mut vs = vs;
                let v0 = vs.remove(0);
                let v1 = vs.remove(0);
                let v2 = vs.remove(0);
                let x0 = match T0::from_edgedb_value(v0) {
                    Ok(x) => x,
                    Err(e) => {
                        return Err(e);
                    },
                };
                let x1 = match T1::from_edgedb_value(v1) {
                    Ok(x) => x,
                    Err(e) => {
                        return Err(e);
                    },
                };
                let x2 = match T2::from_edgedb_value(v2) {
                    Ok(x) => x,
                    Err(e) => {
                        return Err(e);
                    },
                };
                Ok((x0, x1, x2))
            },
            v => Err(DecodeError::new(DecodeErrorKind::Unexpected(v))),
        }
    }

    fn to_edgedb_value(self) -> Result<WireValue, DecodeError> {
        let (a, b, c) = self;
        let w0 = match a.to_edgedb_value() {
            Ok(w) => w,
            Err(e) => {
                return Err(e);
            },
        };
        let w1 = match b.to_edgedb_value() {
            Ok(w) => w,
            Err(e) => {
                return Err(e);
            },
        };
        let w2 = match c.to_edgedb_value() {
            Ok(w) => w,
            Err(e) => {
                return Err(e);
            },
        };
        let mut ws: Vec<WireValue> = Vec::new();
        ws.push(w0);
        ws.push(w1);
        ws.push(w2);
        Ok(WireValue::Tuple(ws))
    }
}


impl<T0: EdgedbValue, T1: EdgedbValue, T2: EdgedbValue, T3: EdgedbValue> EdgedbValue for (T0, T1, T2, T3) {
    open spec fn value_decode_ok(v: WireValue, out: (T0, T1, T2, T3)) -> bool {
        match v {
            WireValue::Tuple(vs) => vs@.len() == 4 && T0::value_decode_ok(vs@[0], out.0) && T1::value_decode_ok(vs@[1], out.1) && T2::value_decode_ok(vs@[2], out.2) && T3::value_decode_ok(vs@[3], out.3),
            _ => false,
        }
    }

    open spec fn value_decode_err(v: WireValue) -> Option<ErrView> {
        match v {
            WireValue::Tuple(vs) => if vs@.len() != 4 {
                Some((DecodeErrorKind::ExpectedTupleOfLen(4), None))
            } else {
                match T0::value_decode_err(vs@[0]) {
                    Some(e) => Some(e),
                    None => match T1::value_decode_err(vs@[1]) {
                    Some(e) => Some(e),
                    None => match T2::value_decode_err(vs@[2]) {
                    Some(e) => Some(e),
                    None => T3::value_decode_err(vs@[3]),
                },
                },
                }
            },
            _ => Some((DecodeErrorKind::Unexpected(v), None)),
        }
    }

    open spec fn value_encode_ok(self, w: WireValue) -> bool {
        match w {
            WireValue::Tuple(ws) => ws@.len() == 4 && self.0.value_encode_ok(ws@[0]) && self.1.value_encode_ok(ws@[1]) && self.2.value_encode_ok(ws@[2]) && self.3.value_encode_ok(ws@[3]),
            _ => false,
        }
    }

    open spec fn value_encode_err(self) -> Option<ErrView> {
        match self.0.value_encode_err() {
            Some(e) => Some(e),
            None => match self.1.value_encode_err() {
            Some(e) => Some(e),
            None => match self.2.value_encode_err() {
            Some(e) => Some(e),
            None => self.3.value_encode_err(),
        },
        },
        }
    }

    fn from_edgedb_value(value: WireValue) -> Result<Self, DecodeError> {
        match value {
            WireValue::Tuple(vs) => {
                if vs.len() != 4 {
                    return Err(DecodeError::new(DecodeErrorKind::ExpectedTupleOfLen(4)));
                }
                let mut vs = vs;
                let v0 = vs.remove(0);
                let v1 = vs.remove(0);
                let v2 = vs.remove(0);
                let v3 = vs.remove(0);
                let x0 = match T0::from_edgedb_value(v0) {
                    Ok(x) => x,
                    Err(e) => {
                        return Err(e);
                    },
                };
                let x1 = match T1::from_edgedb_value(v1) {
                    Ok(x) => x,
                    Err(e) => {
                        return Err(e);
                    },
                };
                let x2 = match T2::from_edgedb_value(v2) {
                    Ok(x) => x,
                    Err(e) => {
                        return Err(e);
                    },
                };
                let x3 = match T3::from_edgedb_value(v3) {
                    Ok(x) => x,
                    Err(e) => {
                        return Err(e);
                    },
                };
                Ok((x0, x1, x2, x3))
            },
            v => Err(DecodeError::new(DecodeErrorKind::Unexpected(v))),
        }
    }

    fn to_edgedb_value(self) -> Result<WireValue, DecodeError> {
        let (a, b, c, d) = self;
        let w0 = match a.to_edgedb_value() {
            Ok(w) => w,
            Err(e) => {
                return Err(e);
            },
        };
        let w1 = match b.to_edgedb_value() {
            Ok(w) => w,
            Err(e) => {
                return Err(e);
            },
        };
        let w2 = match c.to_edgedb_value() {
            Ok(w) => w,
            Err(e) => {
                return Err(e);
            },
        };
        let w3 = match d.to_edgedb_value() {
            Ok(w) => w,
            Err(e) => {
                return Err(e);
            },
        };
        let mut ws: Vec<WireValue> = Vec::new();
        ws.push(w0);
        ws.push(w1);
        ws.push(w2);
        ws.push(w3);
        Ok(WireValue::Tuple(ws))
    }
}

impl<T0: EdgedbValue, T1: EdgedbValue, T2: EdgedbValue, T3: EdgedbValue, T4: EdgedbValue> EdgedbValue for (T0, T1, T2, T3, T4) {
    open spec fn value_decode_ok(v: WireValue, out: (T0, T1, T2, T3, T4)) -> bool {
        match v {
            WireValue::Tuple(vs) => vs@.len() == 5 && T0::value_decode_ok(vs@[0], out.0) && T1::value_decode_ok(vs@[1], out.1) && T2::value_decode_ok(vs@[2], out.2) && T3::value_decode_ok(vs@[3], out.3) && T4::value_decode_ok(vs@[4], out.4),
            _ => false,
        }
    }

    open spec fn value_decode_err(v: WireValue) -> Option<ErrView> {
        match v {
            WireValue::Tuple(vs) => if vs@.len() != 5 {
                Some((DecodeErrorKind::ExpectedTupleOfLen(5), None))
            } else {
                match T0::value_decode_err(vs@[0]) {
                    Some(e) => Some(e),
                    None => match T1::value_decode_err(vs@[1]) {
                    Some(e) => Some(e),
                    None => match T2::value_decode_err(vs@[2]) {
                    Some(e) => Some(e),
                    None => match T3::value_decode_err(vs@[3]) {
                    Some(e) => Some(e),
                    None => T4::value_decode_err(vs@[4]),
                },
                },
                },
                }
            },
            _ => Some((DecodeErrorKind::Unexpected(v), None)),
        }
    }

    open spec fn value_encode_ok(self, w: WireValue) -> bool {
        match w {
            WireValue::Tuple(ws) => ws@.len() == 5 && self.0.value_encode_ok(ws@[0]) && self.1.value_encode_ok(ws@[1]) && self.2.value_encode_ok(ws@[2]) && self.3.value_encode_ok(ws@[3]) && self.4.value_encode_ok(ws@[4]),
            _ => false,
        }
    }

    open spec fn value_encode_err(self) -> Option<ErrView> {
        match self.0.value_encode_err() {
            Some(e) => Some(e),
            None => match self.1.value_encode_err() {
            Some(e) => Some(e),
            None => match self.2.value_encode_err() {
            Some(e) => Some(e),
            None => match self.3.value_encode_err() {
            Some(e) => Some(e),
            None => self.4.value_encode_err(),
        },
        },
        },
        }
    }

    fn from_edgedb_value(value: WireValue) -> Result<Self, DecodeError> {
        match value {
            WireValue::Tuple(vs) => {
                if vs.len() != 5 {
                    return Err(DecodeError::new(DecodeErrorKind::ExpectedTupleOfLen(5)));
                }
                let mut vs = vs;
                let v0 = vs.remove(0);
                let v1 = vs.remove(0);
                let v2 = vs.remove(0);
                let v3 = vs.remove(0);
                let v4 = vs.remove(0);
                let x0 = match T0::from_edgedb_value(v0) {
                    Ok(x) => x,
                    Err(e) => {
                        return Err(e);
                    },
                };
                let x1 = match T1::from_edgedb_value(v1) {
                    Ok(x) => x,
                    Err(e) => {
                        return Err(e);
                    },
                };
                let x2 = match T2::from_edgedb_value(v2) {
                    Ok(x) => x,
                    Err(e) => {
                        return Err(e);
                    },
                };
                let x3 = match T3::from_edgedb_value(v3) {
                    Ok(x) => x,
                    Err(e) => {
                        return Err(e);
                    },
                };
                let x4 = match T4::from_edgedb_value(v4) {
                    Ok(x) => x,
                    Err(e) => {
                        return Err(e);
                    },
                };
                Ok((x0, x1, x2, x3, x4))
            },
            v => Err(DecodeError::new(DecodeErrorKind::Unexpected(v))),
        }
    }

    fn to_edgedb_value(self) -> Result<WireValue, DecodeError> {
        let (a, b, c, d, e) = self;
        let w0 = match a.to_edgedb_value() {
            Ok(w) => w,
            Err(e) => {
                return Err(e);
            },
        };
        let w1 = match b.to_edgedb_value() {
            Ok(w) => w,
            Err(e) => {
                return Err(e);
            },
        };
        let w2 = match c.to_edgedb_value() {
            Ok(w) => w,
            Err(e) => {
                return Err(e);
            },
        };
        let w3 = match d.to_edgedb_value() {
            Ok(w) => w,
            Err(e) => {
                return Err(e);
            },
        };
        let w4 = match e.to_edgedb_value() {
            Ok(w) => w,
            Err(e) => {
                return Err(e);
            },
        };
        let mut ws: Vec<WireValue> = Vec::new();
        ws.push(w0);
        ws.push(w1);
        ws.push(w2);
        ws.push(w3);
        ws.push(w4);
        Ok(WireValue::Tuple(ws))
    }
}

impl<T0: EdgedbValue, T1: EdgedbValue, T2: EdgedbValue, T3: EdgedbValue, T4: EdgedbValue, T5: EdgedbValue> EdgedbValue for (T0, T1, T2, T3, T4, T5) {
    open spec fn value_decode_ok(v: WireValue, out: (T0, T1, T2, T3, T4, T5)) -> bool {
        match v {
            WireValue::Tuple(vs) => vs@.len() == 6 && T0::value_decode_ok(vs@[0], out.0) && T1::value_decode_ok(vs@[1], out.1) && T2::value_decode_ok(vs@[2], out.2) && T3::value_decode_ok(vs@[3], out.3) && T4::value_decode_ok(vs@[4], out.4) && T5::value_decode_ok(vs@[5], out.5),
            _ => false,
        }
    }

    open spec fn value_decode_err(v: WireValue) -> Option<ErrView> {
        match v {
            WireValue::Tuple(vs) => if vs@.len() != 6 {
                Some((DecodeErrorKind::ExpectedTupleOfLen(6), None))
            } else {
                match T0::value_decode_err(vs@[0]) {
                    Some(e) => Some(e),
                    None => match T1::value_decode_err(vs@[1]) {
                    Some(e) => Some(e),
                    None => match T2::value_decode_err(vs@[2]) {
                    Some(e) => Some(e),
                    None => match T3::value_decode_err(vs@[3]) {
                    Some(e) => Some(e),
                    None => match T4::value_decode_err(vs@[4]) {
                    Some(e) => Some(e),
                    None => T5::value_decode_err(vs@[5]),
                },
                },
                },
                },
                }
            },
            _ => Some((DecodeErrorKind::Unexpected(v), None)),
        }
    }

    open spec fn value_encode_ok(self, w: WireValue) -> bool {
        match w {
            WireValue::Tuple(ws) => ws@.len() == 6 && self.0.value_encode_ok(ws@[0]) && self.1.value_encode_ok(ws@[1]) && self.2.value_encode_ok(ws@[2]) && self.3.value_encode_ok(ws@[3]) && self.4.value_encode_ok(ws@[4]) && self.5.value_encode_ok(ws@[5]),
            _ => false,
        }
    }

    open spec fn value_encode_err(self) -> Option<ErrView> {
        match self.0.value_encode_err() {
            Some(e) => Some(e),
            None => match self.1.value_encode_err() {
            Some(e) => Some(e),
            None => match self.2.value_encode_err() {
            Some(e) => Some(e),
            None => match self.3.value_encode_err() {
            Some(e) => Some(e),
            None => match self.4.value_encode_err() {
            Some(e) => Some(e),
            None => self.5.value_encode_err(),
        },
        },
        },
        },
        }
    }

    fn from_edgedb_value(value: WireValue) -> Result<Self, DecodeError> {
        match value {
            WireValue::Tuple(vs) => {
                if vs.len() != 6 {
                    return Err(DecodeError::new(DecodeErrorKind::ExpectedTupleOfLen(6)));
                }
                let mut vs = vs;
                let v0 = vs.remove(0);
                let v1 = vs.remove(0);
                let v2 = vs.remove(0);
                let v3 = vs.remove(0);
                let v4 = vs.remove(0);
                let v5 = vs.remove(0);
                let x0 = match T0::from_edgedb_value(v0) {
                    Ok(x) => x,
                    Err(e) => {
                        return Err(e);
                    },
                };
                let x1 = match T1::from_edgedb_value(v1) {
                    Ok(x) => x,
                    Err(e) => {
                        return Err(e);
                    },
                };
                let x2 = match T2::from_edgedb_value(v2) {
                    Ok(x) => x,
                    Err(e) => {
                        return Err(e);
                    },
                };
                let x3 = match T3::from_edgedb_value(v3) {
                    Ok(x) => x,
                    Err(e) => {
                        return Err(e);
                    },
                };
                let x4 = match T4::from_edgedb_value(v4) {
                    Ok(x) => x,
                    Err(e) => {
                        return Err(e);
                    },
                };
                let x5 = match T5::from_edgedb_value(v5) {
                    Ok(x) => x,
                    Err(e) => {
                        return Err(e);
                    },
                };
                Ok((x0, x1, x2, x3, x4, x5))
            },
            v => Err(DecodeError::new(DecodeErrorKind::Unexpected(v))),
        }
    }

    fn to_edgedb_value(self) -> Result<WireValue, DecodeError> {
        let (a, b, c, d, e, f) = self;
        let w0 = match a.to_edgedb_value() {
            Ok(w) => w,
            Err(e) => {
                return Err(e);
            },
        };
        let w1 = match b.to_edgedb_value() {
            Ok(w) => w,
            Err(e) => {
                return Err(e);
            },
        };
        let w2 = match c.to_edgedb_value() {
            Ok(w) => w,
            Err(e) => {
                return Err(e);
            },
        };
        let w3 = match d.to_edgedb_value() {
            Ok(w) => w,
            Err(e) => {
                return Err(e);
            },
        };
        let w4 = match e.to_edgedb_value() {
            Ok(w) => w,
            Err(e) => {
                return Err(e);
            },
        };
        let w5 = match f.to_edgedb_value() {
            Ok(w) => w,
            Err(e) => {
                return Err(e);
            },
        };
        let mut ws: Vec<WireValue> = Vec::new();
        ws.push(w0);
        ws.push(w1);
        ws.push(w2);
        ws.push(w3);
        ws.push(w4);
        ws.push(w5);
        Ok(WireValue::Tuple(ws))
    }
}

} // verus!
