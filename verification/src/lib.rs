//! Composable EdgeDB queries: a typed intermediate representation for
//! query-language expressions, a deterministic query-text synthesizer, and a
//! cardinality-aware codec between the wire value representation and native
//! values.

pub mod args;
pub mod atleast_one;
pub mod attrs;
pub mod composable;
pub mod object;
pub mod prim;
pub mod query_ir;
pub mod refs;
pub mod render;
pub mod shapes;
pub mod tuples;
pub mod value;
pub mod wire;
