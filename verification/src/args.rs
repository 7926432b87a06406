//! Query arguments: tuples of native values that encode, positionally, into
//! the wire values sent alongside the query text.

use vstd::prelude::*;

use crate::value::EdgedbValue;
use crate::wire::{err_view, DecodeError, ErrView, WireValue};

verus! {

/// A tuple of values usable as the arguments of one query: it encodes into
/// one wire value per parameter, in declaration order.
pub trait EdgedbQueryArgs: Sized {
    /// Encoding succeeds with the argument values `out`.
    spec fn args_encode_ok(self, out: Seq<WireValue>) -> bool;

    /// The error view on which encoding fails.
    spec fn args_encode_err(self) -> Option<ErrView>;

    fn as_query_args(self) -> (r: Result<Vec<WireValue>, DecodeError>)
        ensures
            (match r {
                Ok(ws) => self.args_encode_ok(ws@) && self.args_encode_err() is None,
                Err(e) => self.args_encode_err() == Some(err_view(e)),
            }),
    ;
}

impl EdgedbQueryArgs for () {
    open spec fn args_encode_ok(self, out: Seq<WireValue>) -> bool {
        out.len() == 0
    }

    open spec fn args_encode_err(self) -> Option<ErrView> {
        None
    }

    fn as_query_args(self) -> Result<Vec<WireValue>, DecodeError> {
        Ok(Vec::new())
    }
}

impl<T0: EdgedbValue> EdgedbQueryArgs for (T0,) {
    open spec fn args_encode_ok(self, out: Seq<WireValue>) -> bool {
        out.len() == 1 && self.0.value_encode_ok(out[0])
    }

    open spec fn args_encode_err(self) -> Option<ErrView> {
        self.0.value_encode_err()
    }

    fn as_query_args(self) -> Result<Vec<WireValue>, DecodeError> {
        let (a,) = self;
        let w0 = match a.to_edgedb_value() {
            Ok(w) => w,
            Err(e) => {
                return Err(e);
            },
        };
        let mut ws: Vec<WireValue> = Vec::new();
        ws.push(w0);
        Ok(ws)
    }
}

impl<T0: EdgedbValue, T1: EdgedbValue> EdgedbQueryArgs for (T0, T1) {
    open spec fn args_encode_ok(self, out: Seq<WireValue>) -> bool {
        out.len() == 2 && self.0.value_encode_ok(out[0]) && self.1.value_encode_ok(out[1])
    }

    open spec fn args_encode_err(self) -> Option<ErrView> {
        match self.0.value_encode_err() {
            Some(e) => Some(e),
            None => self.1.value_encode_err(),
        }
    }

    fn as_query_args(self) -> Result<Vec<WireValue>, DecodeError> {
        let (a, b) = self;
        let w0 = match a.to_edgedb_value() {
            Ok(w) => w,
            Err(e) => {
                return Err(e);
            },
        };
        let w1 = match b.to_edgedb_value() {
            Ok(w) => w,
            Err(e) => {
                return Err(e);
            },
        };
        let mut ws: Vec<WireValue> = Vec::new();
        ws.push(w0);
        ws.push(w1);
        Ok(ws)
    }
}

impl<T0: EdgedbValue, T1: EdgedbValue, T2: EdgedbValue> EdgedbQueryArgs for (T0, T1, T2) {
    open spec fn args_encode_ok(self, out: Seq<WireValue>) -> bool {
        out.len() == 3 && self.0.value_encode_ok(out[0]) && self.1.value_encode_ok(out[1])
            && self.2.value_encode_ok(out[2])
    }

    open spec fn args_encode_err(self) -> Option<ErrView> {
        match self.0.value_encode_err() {
            Some(e) => Some(e),
            None => match self.1.value_encode_err() {
                Some(e) => Some(e),
                None => self.2.value_encode_err(),
            },
        }
    }

    fn as_query_args(self) -> Result<Vec<WireValue>, DecodeError> {
        let (a, b, c) = self;
        let w0 = match a.to_edgedb_value() {
            Ok(w) => w,
            Err(e) => {
                return Err(e);
            },
        };
        let w1 = match b.to_edgedb_value() {
            Ok(w) => w,
            Err(e) => {
                return Err(e);
            },
        };
        let w2 = match c.to_edgedb_value() {
            Ok(w) => w,
            Err(e) => {
                return Err(e);
            },
        };
        let mut ws: Vec<WireValue> = Vec::new();
        ws.push(w0);
        ws.push(w1);
        ws.push(w2);
        Ok(ws)
    }
}


impl<T0: EdgedbValue, T1: EdgedbValue, T2: EdgedbValue, T3: EdgedbValue> EdgedbQueryArgs for (T0, T1, T2, T3) {
    open spec fn args_encode_ok(self, out: Seq<WireValue>) -> bool {
        out.len() == 4 && self.0.value_encode_ok(out[0]) && self.1.value_encode_ok(out[1]) && self.2.value_encode_ok(out[2]) && self.3.value_encode_ok(out[3])
    }

    open spec fn args_encode_err(self) -> Option<ErrView> {
        match self.0.value_encode_err() {
            Some(e) => Some(e),
            None => match self.1.value_encode_err() {
            Some(e) => Some(e),
            None => match self.2.value_encode_err() {
            Some(e) => Some(e),
            None => self.3.value_encode_err(),
        },
        },
        }
    }

    fn as_query_args(self) -> Result<Vec<WireValue>, DecodeError> {
        let (a, b, c, d) = self;
        let w0 = match a.to_edgedb_value() {
            Ok(w) => w,
            Err(e) => {
                return Err(e);
            },
        };
        let w1 = match b.to_edgedb_value() {
            Ok(w) => w,
            Err(e) => {
                return Err(e);
            },
        };
        let w2 = match c.to_edgedb_value() {
            Ok(w) => w,
            Err(e) => {
                return Err(e);
            },
        };
        let w3 = match d.to_edgedb_value() {
            Ok(w) => w,
            Err(e) => {
                return Err(e);
            },
        };
        let mut ws: Vec<WireValue> = Vec::new();
        ws.push(w0);
        ws.push(w1);
        ws.push(w2);
        ws.push(w3);
        Ok(ws)
    }
}

impl<T0: EdgedbValue, T1: EdgedbValue, T2: EdgedbValue, T3: EdgedbValue, T4: EdgedbValue> EdgedbQueryArgs for (T0, T1, T2, T3, T4) {
    open spec fn args_encode_ok(self, out: Seq<WireValue>) -> bool {
        out.len() == 5 && self.0.value_encode_ok(out[0]) && self.1.value_encode_ok(out[1]) && self.2.value_encode_ok(out[2]) && self.3.value_encode_ok(out[3]) && self.4.value_encode_ok(out[4])
    }

    open spec fn args_encode_err(self) -> Option<ErrView> {
        match self.0.value_encode_err() {
            Some(e) => Some(e),
            None => match self.1.value_encode_err() {
            Some(e) => Some(e),
            None => match self.2.value_encode_err() {
            Some(e) => Some(e),
            None => match self.3.value_encode_err() {
            Some(e) => Some(e),
            None => self.4.value_encode_err(),
        },
        },
        },
        }
    }

    fn as_query_args(self) -> Result<Vec<WireValue>, DecodeError> {
        let (a, b, c, d, e) = self;
        let w0 = match a.to_edgedb_value() {
            Ok(w) => w,
            Err(e) => {
                return Err(e);
            },
        };
        let w1 = match b.to_edgedb_value() {
            Ok(w) => w,
            Err(e) => {
                return Err(e);
            },
        };
        let w2 = match c.to_edgedb_value() {
            Ok(w) => w,
            Err(e) => {
                return Err(e);
            },
        };
        let w3 = match d.to_edgedb_value() {
            Ok(w) => w,
            Err(e) => {
                return Err(e);
            },
        };
        let w4 = match e.to_edgedb_value() {
            Ok(w) => w,
            Err(e) => {
                return Err(e);
            },
        };
        let mut ws: Vec<WireValue> = Vec::new();
        ws.push(w0);
        ws.push(w1);
        ws.push(w2);
        ws.push(w3);
        ws.push(w4);
        Ok(ws)
    }
}

impl<T0: EdgedbValue, T1: EdgedbValue, T2: EdgedbValue, T3: EdgedbValue, T4: EdgedbValue, T5: EdgedbValue> EdgedbQueryArgs for (T0, T1, T2, T3, T4, T5) {
    open spec fn args_encode_ok(self, out: Seq<WireValue>) -> bool {
        out.len() == 6 && self.0.value_encode_ok(out[0]) && self.1.value_encode_ok(out[1]) && self.2.value_encode_ok(out[2]) && self.3.value_encode_ok(out[3]) && self.4.value_encode_ok(out[4]) && self.5.value_encode_ok(out[5])
    }

    open spec fn args_encode_err(self) -> Option<ErrView> {
        match self.0.value_encode_err() {
            Some(e) => Some(e),
            None => match self.1.value_encode_err() {
            Some(e) => Some(e),
            None => match self.2.value_encode_err() {
            Some(e) => Some(e),
            None => match self.3.value_encode_err() {
            Some(e) => Some(e),
            None => match self.4.value_encode_err() {
            Some(e) => Some(e),
            None => self.5.value_encode_err(),
        },
        },
        },
        },
        }
    }

    fn as_query_args(self) -> Result<Vec<WireValue>, DecodeError> {
        let (a, b, c, d, e, f) = self;
        let w0 = match a.to_edgedb_value() {
            Ok(w) => w,
            Err(e) => {
                return Err(e);
            },
        };
        let w1 = match b.to_edgedb_value() {
            Ok(w) => w,
            Err(e) => {
                return Err(e);
            },
        };
        let w2 = match c.to_edgedb_value() {
            Ok(w) => w,
            Err(e) => {
                return Err(e);
            },
        };
        let w3 = match d.to_edgedb_value() {
            Ok(w) => w,
            Err(e) => {
                return Err(e);
            },
        };
        let w4 = match e.to_edgedb_value() {
            Ok(w) => w,
            Err(e) => {
                return Err(e);
            },
        };
        let w5 = match f.to_edgedb_value() {
            Ok(w) => w,
            Err(e) => {
                return Err(e);
            },
        };
        let mut ws: Vec<WireValue> = Vec::new();
        ws.push(w0);
        ws.push(w1);
        ws.push(w2);
        ws.push(w3);
        ws.push(w4);
        ws.push(w5);
        Ok(ws)
    }
}

} // verus!
