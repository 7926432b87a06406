//! The intermediate representation of a composable query, produced by the
//! attribute parser and consumed by the text synthesizer: parameters,
//! with-bindings, query-variable expressions and the selector.

use vstd::prelude::*;

verus! {

/// The result types the synthesizer knows how to fetch and cast.
#[derive(Debug, Clone, Copy, PartialEq, Eq, Structural)]
pub enum ScalarKind {
    Int16,
    Int32,
    Int64,
    Bool,
    Str,
    Uuid,
    Json,
}

/// A structure member's (or parameter's) type, as far as the synthesizer
/// reads it: a scalar, the unit type, a cardinality wrapper, a reference,
/// or another named composable structure.
#[derive(Debug, PartialEq, Eq)]
pub enum TypeRef {
    Scalar(ScalarKind),
    Unit,
    /// `Option<T>`: at most one.
    Optional(Box<TypeRef>),
    /// `Vec<T>`: any number.
    List(Box<TypeRef>),
    /// A non-empty vector: at least one.
    NonEmptyList(Box<TypeRef>),
    /// `Ref<T>`: id plus optionally the value.
    RefTo(Box<TypeRef>),
    /// A named structure, resolved against the query environment.
    Named(String),
}

/// A query-language expression: an inline fragment or reference, or a call
/// to another composable query with named argument bindings.
#[derive(Debug, PartialEq, Eq)]
pub enum QueryVar {
    Var(String),
    /// `Target(name = expr, ...)`: embeds the target's whole query.
    Call(String, Vec<(String, QueryVar)>),
}

/// The declared parameters of one query: names and types, in declaration
/// order. Order is significant: parameters bind to positional placeholders.
#[derive(Debug, PartialEq, Eq)]
pub struct Params(pub Vec<(String, TypeRef)>);

/// One named sub-expression of the query's `with` preamble.
#[derive(Debug, PartialEq, Eq)]
pub struct With(pub String, pub QueryVar);

/// One field of an explicit selector: either recurse into the member type's
/// own selector, or a computed per-field expression.
#[derive(Debug, PartialEq, Eq)]
pub enum SelectorValue {
    SubSelector(TypeRef),
    Computed(QueryVar),
}

/// What the query selects: fields from a source expression, a free-standing
/// object, or a passthrough to a wrapped type's own selector.
#[derive(Debug, PartialEq, Eq)]
pub enum QuerySelector {
    /// `select <source> { fields }`; the source is a simple name, possibly
    /// a desugared with-binding.
    Selector(String, Vec<(String, SelectorValue)>),
    /// `select { name := (expr), ... }`.
    Object(Vec<(String, QueryVar)>),
    /// The wrapped type's own selector, selected from the expression.
    Direct(QueryVar, TypeRef),
}

/// A whole validated query: parameters, with-bindings (explicit first, then
/// desugared), and the selector.
#[derive(Debug, PartialEq, Eq)]
pub struct Query {
    pub params: Params,
    pub withs: Vec<With>,
    pub result: QuerySelector,
}

/// A character that may appear in a simple name or dotted path.
pub open spec fn is_name_char(c: char) -> bool {
    ('a' <= c && c <= 'z') || ('A' <= c && c <= 'Z') || ('0' <= c && c <= '9') || c == '_' || c
        == '.'
}

/// A fragment that can be referenced directly, without first being bound by
/// a `with`: every character is alphanumeric, `_` or `.`.
pub open spec fn is_simple_name(s: Seq<char>) -> bool {
    forall|i: int| 0 <= i < s.len() ==> is_name_char(#[trigger] s[i])
}

impl QueryVar {
    /// The fragment itself when it is a bare name or dotted path; `None`
    /// for a call or for a fragment that needs a with-binding.
    #[verifier::loop_isolation(false)]
    pub fn as_simple_name_or_ref(&self) -> (r: Option<&str>)
        ensures
            (match r {
                Some(s) => self matches QueryVar::Var(v) && s@ == v@ && is_simple_name(v@),
                None => match self {
                    QueryVar::Var(v) => !is_simple_name(v@),
                    QueryVar::Call(_, _) => true,
                },
            }),
    {
        match self {
            QueryVar::Var(s) => {
                let st = s.as_str();
                let n = st.unicode_len();
                let mut i: usize = 0;
                while i < n
                    invariant
                        0 <= i <= n,
                        n == st@.len(),
                        st@ == s@,
                        forall|j: int| 0 <= j < i ==> is_name_char(#[trigger] st@[j]),
                    decreases n - i,
                {
                    let c = st.get_char(i);
                    let ok = (('a' <= c && c <= 'z') || ('A' <= c && c <= 'Z') || ('0' <= c && c
                        <= '9') || c == '_' || c == '.');
                    if !ok {
                        return None;
                    }
                    i += 1;
                }
                Some(st)
            },
            QueryVar::Call(_, _) => None,
        }
    }
}

} // verus!
