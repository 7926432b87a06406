//! The attribute parser: reads the declarative annotations of one structure
//! (as the host front-end hands them over, already tokenized into a plain
//! attribute tree) and builds the validated query representation.
//!
//! Violations are accumulated, not thrown at the first one: a single
//! malformed structure reports every independent problem found.

use vstd::prelude::*;

use crate::query_ir::{is_simple_name, Params, Query, QuerySelector, QueryVar, SelectorValue,
    TypeRef, With};

verus! {

/// An expression inside an annotation, as the host front-end parses it.
#[derive(Debug, PartialEq, Eq)]
pub enum AttrExpr {
    /// A quoted string literal.
    StrLit(String),
    /// A literal of any other kind.
    OtherLit,
    /// A bare identifier or path, by segments.
    Path(Vec<String>),
    /// A call `Target(arg, ...)` whose callee is a path.
    CallExpr(Vec<String>, Vec<AttrArg>),
    /// Any other expression form.
    OtherExpr,
}

/// One argument of a call expression.
#[derive(Debug, PartialEq, Eq)]
pub enum AttrArg {
    /// `name = expr` with a path on the left.
    Named(Vec<String>, AttrExpr),
    /// An assignment whose left side is not a path.
    NamedBadLhs,
    /// An argument that is not an assignment at all.
    Bare,
}

/// The pattern of one entry of a `params(...)` annotation.
#[derive(Debug, PartialEq, Eq)]
pub enum ParamPat {
    Ident(String),
    OtherPat,
}

/// One entry of a `params(...)` annotation: `name: type`, or a receiver.
#[derive(Debug, PartialEq, Eq)]
pub enum ParamEntry {
    Receiver,
    Typed(ParamPat, TypeRef),
}

/// The content of a `direct(...)` annotation.
#[derive(Debug, PartialEq, Eq)]
pub enum DirectContent {
    Text(String),
    NotText,
}

/// One attribute on the structure, as handed over by the front-end.
#[derive(Debug, PartialEq, Eq)]
pub enum RawAttr {
    Params(Vec<ParamEntry>),
    With(Vec<(String, AttrExpr)>),
    Select(AttrExpr),
    Direct(DirectContent),
    /// Any attribute this library does not read (docs, derives, ...).
    OtherAttr,
}

/// One member of the structure, with its optional `var(...)` annotations.
#[derive(Debug, PartialEq, Eq)]
pub struct FieldInput {
    pub field_name: Option<String>,
    pub ty: TypeRef,
    pub var_attrs: Vec<AttrExpr>,
}

/// A parsed member: its name, type, and the parsed `var` override.
#[derive(Debug, PartialEq, Eq)]
pub struct ComposableQueryReturn {
    pub field_name: Option<String>,
    pub ty: TypeRef,
    pub var: Option<QueryVar>,
}

/// The members of the annotated item.
#[derive(Debug, PartialEq, Eq)]
pub enum StructData {
    Struct(Vec<ComposableQueryReturn>),
    Enum,
}

/// One annotation error. All independent violations of one structure are
/// reported together.
#[derive(Debug, Clone, Copy, PartialEq, Eq, Structural)]
pub enum AttrError {
    ExpectedStringOrStructName,
    ExpectedStructName,
    ExpectedIdent,
    ExpectedSimpleNamedArgument,
    ExpectedNamedArgument,
    ReceiverParam,
    ExpectedSimpleIdentifier,
    ExpectedArgsForWith,
    ExpectedStringLiteral,
    MultipleVarAttrs,
    MultipleParamsAttrs,
    MultipleSelectAttrs,
    MultipleDirectAttrs,
    SelectAndDirect,
    EnumsNotSupported,
    EmptyStructNeedsDirect,
    ExpectedSingleUnnamedField,
    WrapperNeedsSelectOrDirect,
    DirectOnNonEmptyStruct,
}

/// The diagnostic text of an error.
pub open spec fn message_spec(e: AttrError) -> Seq<char> {
    match e {
        AttrError::ExpectedStringOrStructName => "expected a string literal or a struct name"@,
        AttrError::ExpectedStructName => "expected a struct name"@,
        AttrError::ExpectedIdent => "expected a simple identifier path"@,
        AttrError::ExpectedSimpleNamedArgument => (
        "expected a simple named argument (e.g. name = value)"@),
        AttrError::ExpectedNamedArgument => "expected a named argument (e.g. name = value)"@,
        AttrError::ReceiverParam => "can't have a receiver param"@,
        AttrError::ExpectedSimpleIdentifier => "expected a simple identifier"@,
        AttrError::ExpectedArgsForWith => "expected args for with"@,
        AttrError::ExpectedStringLiteral => "expected a string literal"@,
        AttrError::MultipleVarAttrs => "expected only one var attribute"@,
        AttrError::MultipleParamsAttrs => "expected at most one #[params] attribute"@,
        AttrError::MultipleSelectAttrs => "expected at most one #[select] attribute"@,
        AttrError::MultipleDirectAttrs => "expected at most one #[direct] attribute"@,
        AttrError::SelectAndDirect => "expected at most one of #[select] or #[direct]"@,
        AttrError::EnumsNotSupported => "enums are not supported"@,
        AttrError::EmptyStructNeedsDirect => "expected #[direct] attribute for empty structs"@,
        AttrError::ExpectedSingleUnnamedField => "expected a single unnamed field"@,
        AttrError::WrapperNeedsSelectOrDirect => (
        "expected #[select] or #[direct] attribute for wrapper structs"@),
        AttrError::DirectOnNonEmptyStruct => (
        "expected no #[direct] attribute for non-empty structs"@),
    }
}

impl AttrError {
    /// The diagnostic text of this error.
    pub fn message(&self) -> (r: &'static str)
        ensures
            r@ == message_spec(*self),
    {
        match self {
            AttrError::ExpectedStringOrStructName => "expected a string literal or a struct name",
            AttrError::ExpectedStructName => "expected a struct name",
            AttrError::ExpectedIdent => "expected a simple identifier path",
            AttrError::ExpectedSimpleNamedArgument => "expected a simple named argument (e.g. name = value)",
            AttrError::ExpectedNamedArgument => "expected a named argument (e.g. name = value)",
            AttrError::ReceiverParam => "can't have a receiver param",
            AttrError::ExpectedSimpleIdentifier => "expected a simple identifier",
            AttrError::ExpectedArgsForWith => "expected args for with",
            AttrError::ExpectedStringLiteral => "expected a string literal",
            AttrError::MultipleVarAttrs => "expected only one var attribute",
            AttrError::MultipleParamsAttrs => "expected at most one #[params] attribute",
            AttrError::MultipleSelectAttrs => "expected at most one #[select] attribute",
            AttrError::MultipleDirectAttrs => "expected at most one #[direct] attribute",
            AttrError::SelectAndDirect => "expected at most one of #[select] or #[direct]",
            AttrError::EnumsNotSupported => "enums are not supported",
            AttrError::EmptyStructNeedsDirect => "expected #[direct] attribute for empty structs",
            AttrError::ExpectedSingleUnnamedField => "expected a single unnamed field",
            AttrError::WrapperNeedsSelectOrDirect => "expected #[select] or #[direct] attribute for wrapper structs",
            AttrError::DirectOnNonEmptyStruct => "expected no #[direct] attribute for non-empty structs",
        }
    }
}

/// The path text of a segment list: segments joined by `::`.
pub open spec fn spec_path_join(segs: Seq<String>) -> Seq<char>
    decreases segs.len(),
{
    if segs.len() == 0 {
        Seq::<char>::empty()
    } else if segs.len() == 1 {
        segs[0]@
    } else {
        segs[0]@ + "::"@ + spec_path_join(segs.skip(1))
    }
}

fn join_path_from(segs: &Vec<String>, i: usize) -> (r: String)
    requires
        i <= segs@.len(),
    ensures
        r@ == spec_path_join(segs@.skip(i as int)),
    decreases segs@.len() - i,
{
    if i == segs.len() {
        proof {
            assert(segs@.skip(i as int).len() == 0);
        }
        return String::new();
    }
    proof {
        assert(segs@.skip(i as int)[0] == segs@[i as int]);
        assert(segs@.skip(i as int).skip(1) =~= segs@.skip(i + 1));
    }
    if i + 1 == segs.len() {
        proof {
            assert(segs@.skip(i as int).len() == 1);
        }
        return segs[i].clone();
    }
    let rest = join_path_from(segs, i + 1);
    let mut out = segs[i].clone();
    out.append("::");
    out.append(rest.as_str());
    proof {
        assert(segs@.skip(i as int).len() != 1);
        assert(out@ =~= segs@[i as int]@ + "::"@ + rest@);
    }
    out
}

/// Parsing `e` as a query variable succeeds with `out`: a string literal is
/// an inline fragment, a lone identifier a reference, and a call with
/// `name = value` arguments a composition of the named target query.
pub open spec fn from_expr_ok(e: AttrExpr, out: QueryVar) -> bool
    decreases e,
{
    match e {
        AttrExpr::StrLit(s) => out == QueryVar::Var(s),
        AttrExpr::OtherLit => false,
        AttrExpr::Path(segs) => segs@.len() == 1 && out == QueryVar::Var(segs@[0]),
        AttrExpr::CallExpr(path, args) => path@.len() > 0 && (match out {
            QueryVar::Call(target, bs) => target@ == spec_path_join(path@) && bindings_ok(
                args@,
                bs@,
            ),
            _ => false,
        }),
        AttrExpr::OtherExpr => false,
    }
}

/// The call arguments `args` parse, pairwise and in order, into the named
/// bindings `bs`.
pub open spec fn bindings_ok(args: Seq<AttrArg>, bs: Seq<(String, QueryVar)>) -> bool
    decreases args,
{
    if args.len() == 0 {
        bs.len() == 0
    } else {
        match args[0] {
            AttrArg::Named(lhs, rhs) => lhs@.len() == 1 && bs.len() > 0 && bs[0].0 == lhs@[0]
                && from_expr_ok(rhs, bs[0].1) && bindings_ok(args.skip(1), bs.skip(1)),
            _ => false,
        }
    }
}

/// The first error parsing `e` as a query variable, `None` when it parses.
pub open spec fn from_expr_err(e: AttrExpr) -> Option<AttrError>
    decreases e,
{
    match e {
        AttrExpr::StrLit(_) => None,
        AttrExpr::OtherLit => Some(AttrError::ExpectedStringOrStructName),
        AttrExpr::Path(segs) => if segs@.len() == 1 {
            None
        } else {
            Some(AttrError::ExpectedIdent)
        },
        AttrExpr::CallExpr(path, args) => if path@.len() == 0 {
            Some(AttrError::ExpectedStructName)
        } else {
            bindings_err(args@)
        },
        AttrExpr::OtherExpr => Some(AttrError::ExpectedStructName),
    }
}

/// The first error among the call arguments.
pub open spec fn bindings_err(args: Seq<AttrArg>) -> Option<AttrError>
    decreases args,
{
    if args.len() == 0 {
        None
    } else {
        match args[0] {
            AttrArg::Named(lhs, rhs) => if lhs@.len() != 1 {
                Some(AttrError::ExpectedIdent)
            } else {
                match from_expr_err(rhs) {
                    Some(e) => Some(e),
                    None => bindings_err(args.skip(1)),
                }
            },
            AttrArg::NamedBadLhs => Some(AttrError::ExpectedSimpleNamedArgument),
            AttrArg::Bare => Some(AttrError::ExpectedNamedArgument),
        }
    }
}

impl QueryVar {
    /// Parses an annotation expression into a query variable.
    pub fn from_expr(e: &AttrExpr) -> (r: Result<QueryVar, AttrError>)
        ensures
            (match r {
                Ok(v) => from_expr_ok(*e, v) && from_expr_err(*e) is None,
                Err(err) => from_expr_err(*e) == Some(err),
            }),
        decreases e, 0int,
    {
        match e {
            AttrExpr::StrLit(s) => Ok(QueryVar::Var(s.clone())),
            AttrExpr::OtherLit => Err(AttrError::ExpectedStringOrStructName),
            AttrExpr::Path(segs) => {
                if segs.len() == 1 {
                    Ok(QueryVar::Var(segs[0].clone()))
                } else {
                    Err(AttrError::ExpectedIdent)
                }
            },
            AttrExpr::CallExpr(path, args) => {
                if path.len() == 0 {
                    return Err(AttrError::ExpectedStructName);
                }
                let target = join_path_from(path, 0);
                proof {
                    assert(path@.skip(0) =~= path@);
                }
                let bres = bindings_from(args, 0);
                proof {
                    assert(args@.skip(0) =~= args@);
                }
                match bres {
                    Ok(bs) => Ok(QueryVar::Call(target, bs)),
                    Err(err) => Err(err),
                }
            },
            AttrExpr::OtherExpr => Err(AttrError::ExpectedStructName),
        }
    }
}

fn bindings_from(args: &Vec<AttrArg>, i: usize) -> (r: Result<Vec<(String, QueryVar)>, AttrError>)
    requires
        i <= args@.len(),
    ensures
        (match r {
            Ok(bs) => bindings_ok(args@.skip(i as int), bs@) && bindings_err(args@.skip(i as int))
                is None,
            Err(err) => bindings_err(args@.skip(i as int)) == Some(err),
        }),
    decreases args, args@.len() - i,
{
    if i == args.len() {
        let bs: Vec<(String, QueryVar)> = Vec::new();
        proof {
            assert(args@.skip(i as int).len() == 0);
        }
        return Ok(bs);
    }
    proof {
        assert(args@.skip(i as int)[0] == args@[i as int]);
        assert(args@.skip(i as int).skip(1) =~= args@.skip(i + 1));
    }
    match &args[i] {
        AttrArg::Named(lhs, rhs) => {
            if lhs.len() != 1 {
                return Err(AttrError::ExpectedIdent);
            }
            let v = match QueryVar::from_expr(rhs) {
                Ok(v) => v,
                Err(err) => {
                    return Err(err);
                },
            };
            let mut rest = match bindings_from(args, i + 1) {
                Ok(bs) => bs,
                Err(err) => {
                    return Err(err);
                },
            };
            let ghost restv = rest@;
            let mut bs: Vec<(String, QueryVar)> = Vec::new();
            bs.push((lhs[0].clone(), v));
            bs.append(&mut rest);
            proof {
                assert(bs@.skip(1) =~= restv);
            }
            Ok(bs)
        },
        AttrArg::NamedBadLhs => Err(AttrError::ExpectedSimpleNamedArgument),
        AttrArg::Bare => Err(AttrError::ExpectedNamedArgument),
    }
}


/// One recognized annotation, parsed: a parameter list, a with-binding, a
/// selector source, or a direct expression.
#[derive(Debug, PartialEq, Eq)]
pub enum ComposableQueryAttribute {
    Params(Params),
    With(With),
    Select(QueryVar),
    Direct(String),
}

/// The error of one `params(...)` entry list, if any: the first entry that
/// is a receiver or whose pattern is not a simple identifier.
pub open spec fn params_entries_err(entries: Seq<ParamEntry>) -> Option<AttrError>
    decreases entries.len(),
{
    if entries.len() == 0 {
        None
    } else {
        match entries[0] {
            ParamEntry::Receiver => Some(AttrError::ReceiverParam),
            ParamEntry::Typed(pat, _) => match pat {
                ParamPat::Ident(_) => params_entries_err(entries.skip(1)),
                ParamPat::OtherPat => Some(AttrError::ExpectedSimpleIdentifier),
            },
        }
    }
}

/// The entries parse, pairwise and in order, into the parameter list `ps`.
pub open spec fn params_entries_ok(entries: Seq<ParamEntry>, ps: Seq<(String, TypeRef)>) -> bool
    decreases entries.len(),
{
    if entries.len() == 0 {
        ps.len() == 0
    } else {
        match entries[0] {
            ParamEntry::Typed(pat, ty) => match pat {
                ParamPat::Ident(n) => ps.len() > 0 && ps[0].0 == n && ps[0].1 == ty
                    && params_entries_ok(entries.skip(1), ps.skip(1)),
                ParamPat::OtherPat => false,
            },
            ParamEntry::Receiver => false,
        }
    }
}

/// The first error of a `with(...)` entry list: no entries at all, or the
/// first value that does not parse.
pub open spec fn with_entries_err(entries: Seq<(String, AttrExpr)>) -> Option<AttrError>
    decreases entries.len(),
{
    if entries.len() == 0 {
        Some(AttrError::ExpectedArgsForWith)
    } else {
        match from_expr_err(entries[0].1) {
            Some(e) => Some(e),
            None => if entries.len() == 1 {
                None
            } else {
                with_entries_err(entries.skip(1))
            },
        }
    }
}

/// Whether one attribute is an annotation this library reads.
pub open spec fn is_recognized(a: RawAttr) -> bool {
    !(a is OtherAttr)
}

/// The error of one attribute, if any.
pub open spec fn from_meta_err(a: RawAttr) -> Option<AttrError> {
    match a {
        RawAttr::Params(entries) => params_entries_err(entries@),
        RawAttr::With(nested) => with_entries_err(nested@),
        RawAttr::Select(e) => from_expr_err(e),
        RawAttr::Direct(c) => match c {
            DirectContent::Text(_) => None,
            DirectContent::NotText => Some(AttrError::ExpectedStringLiteral),
        },
        RawAttr::OtherAttr => None,
    }
}

/// One attribute parses into `out`. A `with` keeps its last entry.
pub open spec fn from_meta_ok(a: RawAttr, out: ComposableQueryAttribute) -> bool {
    match a {
        RawAttr::Params(entries) => match out {
            ComposableQueryAttribute::Params(p) => params_entries_ok(entries@, p.0@),
            _ => false,
        },
        RawAttr::With(nested) => match out {
            ComposableQueryAttribute::With(w) => nested@.len() > 0 && w.0 == nested@.last().0
                && from_expr_ok(nested@.last().1, w.1),
            _ => false,
        },
        RawAttr::Select(e) => match out {
            ComposableQueryAttribute::Select(v) => from_expr_ok(e, v),
            _ => false,
        },
        RawAttr::Direct(c) => match (c, out) {
            (DirectContent::Text(s), ComposableQueryAttribute::Direct(d)) => d == s,
            _ => false,
        },
        RawAttr::OtherAttr => false,
    }
}

impl ComposableQueryAttribute {
    fn parse_params(entries: &Vec<ParamEntry>, i: usize) -> (r: Result<
        Vec<(String, TypeRef)>,
        AttrError,
    >)
        requires
            i <= entries@.len(),
        ensures
            (match r {
                Ok(ps) => params_entries_ok(entries@.skip(i as int), ps@) && params_entries_err(
                    entries@.skip(i as int),
                ) is None,
                Err(e) => params_entries_err(entries@.skip(i as int)) == Some(e),
            }),
        decreases entries@.len() - i,
    {
        if i == entries.len() {
            let ps: Vec<(String, TypeRef)> = Vec::new();
            proof {
                assert(entries@.skip(i as int).len() == 0);
            }
            return Ok(ps);
        }
        proof {
            assert(entries@.skip(i as int)[0] == entries@[i as int]);
            assert(entries@.skip(i as int).skip(1) =~= entries@.skip(i + 1));
        }
        match &entries[i] {
            ParamEntry::Receiver => Err(AttrError::ReceiverParam),
            ParamEntry::Typed(pat, ty) => match pat {
                ParamPat::OtherPat => Err(AttrError::ExpectedSimpleIdentifier),
                ParamPat::Ident(n) => {
                    let mut rest = match Self::parse_params(entries, i + 1) {
                        Ok(ps) => ps,
                        Err(e) => {
                            return Err(e);
                        },
                    };
                    let ghost restv = rest@;
                    let mut ps: Vec<(String, TypeRef)> = Vec::new();
                    ps.push((n.clone(), clone_type_ref(ty)));
                    ps.append(&mut rest);
                    proof {
                        assert(ps@.skip(1) =~= restv);
                    }
                    Ok(ps)
                },
            },
        }
    }

    fn parse_with(nested: &Vec<(String, AttrExpr)>) -> (r: Result<With, AttrError>)
        ensures
            (match r {
                Ok(w) => with_entries_err(nested@) is None && nested@.len() > 0 && w.0
                    == nested@.last().0 && from_expr_ok(nested@.last().1, w.1),
                Err(e) => with_entries_err(nested@) == Some(e),
            }),
    {
        let r = Self::parse_with_from(nested, 0);
        proof {
            assert(nested@.skip(0) =~= nested@);
        }
        r
    }

    fn parse_with_from(nested: &Vec<(String, AttrExpr)>, i: usize) -> (r: Result<With, AttrError>)
        requires
            i <= nested@.len(),
        ensures
            (match r {
                Ok(w) => with_entries_err(nested@.skip(i as int)) is None && nested@.len() > 0
                    && w.0 == nested@.last().0 && from_expr_ok(nested@.last().1, w.1),
                Err(e) => with_entries_err(nested@.skip(i as int)) == Some(e),
            }),
        decreases nested@.len() - i,
    {
        if i == nested.len() {
            proof {
                assert(nested@.skip(i as int).len() == 0);
            }
            return Err(AttrError::ExpectedArgsForWith);
        }
        proof {
            assert(nested@.skip(i as int)[0] == nested@[i as int]);
            assert(nested@.skip(i as int).skip(1) =~= nested@.skip(i + 1));
        }
        let v = match QueryVar::from_expr(&nested[i].1) {
            Ok(v) => v,
            Err(e) => {
                return Err(e);
            },
        };
        if i + 1 == nested.len() {
            proof {
                assert(nested@.skip(i as int).len() == 1);
                assert(nested@[i as int] == nested@.last());
            }
            Ok(With(nested[i].0.clone(), v))
        } else {
            proof {
                assert(nested@.skip(i as int).len() != 1);
            }
            Self::parse_with_from(nested, i + 1)
        }
    }

    /// Reads one attribute: a recognized annotation parses into its typed
    /// form, anything else is ignored.
    pub fn from_meta(a: &RawAttr) -> (r: Result<Option<ComposableQueryAttribute>, AttrError>)
        ensures
            (match r {
                Ok(out) => from_meta_err(*a) is None && (match out {
                    Some(c) => is_recognized(*a) && from_meta_ok(*a, c),
                    None => !is_recognized(*a),
                }),
                Err(e) => from_meta_err(*a) == Some(e),
            }),
    {
        match a {
            RawAttr::Params(entries) => {
                let pres = Self::parse_params(entries, 0);
                proof {
                    assert(entries@.skip(0) =~= entries@);
                }
                match pres {
                    Ok(ps) => Ok(Some(ComposableQueryAttribute::Params(Params(ps)))),
                    Err(e) => Err(e),
                }
            },
            RawAttr::With(nested) => match Self::parse_with(nested) {
                Ok(w) => Ok(Some(ComposableQueryAttribute::With(w))),
                Err(e) => Err(e),
            },
            RawAttr::Select(e) => match QueryVar::from_expr(e) {
                Ok(v) => Ok(Some(ComposableQueryAttribute::Select(v))),
                Err(err) => Err(err),
            },
            RawAttr::Direct(c) => match c {
                DirectContent::Text(s) => Ok(Some(ComposableQueryAttribute::Direct(s.clone()))),
                DirectContent::NotText => Err(AttrError::ExpectedStringLiteral),
            },
            RawAttr::OtherAttr => Ok(None),
        }
    }
}

/// All errors among the attributes, in order.
pub open spec fn from_attrs_errs(attrs: Seq<RawAttr>) -> Seq<AttrError>
    decreases attrs.len(),
{
    if attrs.len() == 0 {
        Seq::<AttrError>::empty()
    } else {
        (match from_meta_err(attrs[0]) {
            Some(e) => seq![e],
            None => Seq::<AttrError>::empty(),
        }) + from_attrs_errs(attrs.skip(1))
    }
}

/// Every attribute parses, and `out` is the recognized ones, in order.
pub open spec fn from_attrs_ok(attrs: Seq<RawAttr>, out: Seq<ComposableQueryAttribute>) -> bool
    decreases attrs.len(),
{
    if attrs.len() == 0 {
        out.len() == 0
    } else if from_meta_err(attrs[0]) is Some {
        false
    } else if is_recognized(attrs[0]) {
        out.len() > 0 && from_meta_ok(attrs[0], out[0]) && from_attrs_ok(
            attrs.skip(1),
            out.skip(1),
        )
    } else {
        from_attrs_ok(attrs.skip(1), out)
    }
}

impl ComposableQueryAttribute {
    /// Reads every attribute, accumulating every error rather than stopping
    /// at the first one.
    pub fn from_attrs(attrs: &Vec<RawAttr>) -> (r: Result<
        Vec<ComposableQueryAttribute>,
        Vec<AttrError>,
    >)
        ensures
            (match r {
                Ok(out) => from_attrs_errs(attrs@).len() == 0 && from_attrs_ok(attrs@, out@),
                Err(es) => es@ == from_attrs_errs(attrs@) && es@.len() > 0,
            }),
    {
        let (out, errs) = Self::from_attrs_from(attrs, 0);
        proof {
            assert(attrs@.skip(0) =~= attrs@);
        }
        if errs.len() > 0 {
            Err(errs)
        } else {
            Ok(out)
        }
    }

    fn from_attrs_from(attrs: &Vec<RawAttr>, i: usize) -> (r: (
        Vec<ComposableQueryAttribute>,
        Vec<AttrError>,
    ))
        requires
            i <= attrs@.len(),
        ensures
            r.1@ == from_attrs_errs(attrs@.skip(i as int)),
            r.1@.len() == 0 ==> from_attrs_ok(attrs@.skip(i as int), r.0@),
        decreases attrs@.len() - i,
    {
        if i == attrs.len() {
            proof {
                assert(attrs@.skip(i as int).len() == 0);
            }
            return (Vec::new(), Vec::new());
        }
        proof {
            assert(attrs@.skip(i as int)[0] == attrs@[i as int]);
            assert(attrs@.skip(i as int).skip(1) =~= attrs@.skip(i + 1));
        }
        let head = Self::from_meta(&attrs[i]);
        let (mut rest_out, mut rest_errs) = Self::from_attrs_from(attrs, i + 1);
        match head {
            Ok(Some(c)) => {
                let ghost restv = rest_out@;
                let mut out: Vec<ComposableQueryAttribute> = Vec::new();
                out.push(c);
                out.append(&mut rest_out);
                proof {
                    assert(out@.skip(1) =~= restv);
                }
                (out, rest_errs)
            },
            Ok(None) => (rest_out, rest_errs),
            Err(e) => {
                let ghost restev = rest_errs@;
                let mut errs: Vec<AttrError> = Vec::new();
                errs.push(e);
                errs.append(&mut rest_errs);
                proof {
                    assert(errs@ =~= seq![e] + restev);
                }
                (rest_out, errs)
            },
        }
    }
}

/// A deep copy of a type reference.
pub fn clone_type_ref(t: &TypeRef) -> (r: TypeRef)
    ensures
        r == *t,
    decreases t,
{
    match t {
        TypeRef::Scalar(k) => TypeRef::Scalar(*k),
        TypeRef::Unit => TypeRef::Unit,
        TypeRef::Optional(inner) => TypeRef::Optional(Box::new(clone_type_ref(&**inner))),
        TypeRef::List(inner) => TypeRef::List(Box::new(clone_type_ref(&**inner))),
        TypeRef::NonEmptyList(inner) => TypeRef::NonEmptyList(Box::new(clone_type_ref(&**inner))),
        TypeRef::RefTo(inner) => TypeRef::RefTo(Box::new(clone_type_ref(&**inner))),
        TypeRef::Named(n) => TypeRef::Named(n.clone()),
    }
}


/// The `params` annotations among the parsed attributes, in order.
pub open spec fn params_of(attrs: Seq<ComposableQueryAttribute>) -> Seq<Params>
    decreases attrs.len(),
{
    if attrs.len() == 0 {
        Seq::<Params>::empty()
    } else {
        (match attrs[0] {
            ComposableQueryAttribute::Params(p) => seq![p],
            _ => Seq::<Params>::empty(),
        }) + params_of(attrs.skip(1))
    }
}

/// The with-bindings among the parsed attributes, in order.
pub open spec fn withs_of(attrs: Seq<ComposableQueryAttribute>) -> Seq<With>
    decreases attrs.len(),
{
    if attrs.len() == 0 {
        Seq::<With>::empty()
    } else {
        (match attrs[0] {
            ComposableQueryAttribute::With(w) => seq![w],
            _ => Seq::<With>::empty(),
        }) + withs_of(attrs.skip(1))
    }
}

/// The `select` annotations among the parsed attributes, in order.
pub open spec fn selects_of(attrs: Seq<ComposableQueryAttribute>) -> Seq<QueryVar>
    decreases attrs.len(),
{
    if attrs.len() == 0 {
        Seq::<QueryVar>::empty()
    } else {
        (match attrs[0] {
            ComposableQueryAttribute::Select(v) => seq![v],
            _ => Seq::<QueryVar>::empty(),
        }) + selects_of(attrs.skip(1))
    }
}

/// The `direct` annotations among the parsed attributes, in order.
pub open spec fn directs_of(attrs: Seq<ComposableQueryAttribute>) -> Seq<String>
    decreases attrs.len(),
{
    if attrs.len() == 0 {
        Seq::<String>::empty()
    } else {
        (match attrs[0] {
            ComposableQueryAttribute::Direct(d) => seq![d],
            _ => Seq::<String>::empty(),
        }) + directs_of(attrs.skip(1))
    }
}

fn partition_attrs(attrs: Vec<ComposableQueryAttribute>) -> (r: (
    Vec<Params>,
    Vec<With>,
    Vec<QueryVar>,
    Vec<String>,
))
    ensures
        r.0@ == params_of(attrs@),
        r.1@ == withs_of(attrs@),
        r.2@ == selects_of(attrs@),
        r.3@ == directs_of(attrs@),
    decreases attrs@.len(),
{
    let mut attrs = attrs;
    if attrs.len() == 0 {
        let r: (Vec<Params>, Vec<With>, Vec<QueryVar>, Vec<String>) = (
            Vec::new(),
            Vec::new(),
            Vec::new(),
            Vec::new(),
        );
        return r;
    }
    let ghost all = attrs@;
    let a = attrs.remove(0);
    proof {
        assert(attrs@ =~= all.skip(1));
    }
    let (mut ps, mut ws, mut ss, mut ds) = partition_attrs(attrs);
    let ghost (ps0, ws0, ss0, ds0) = (ps@, ws@, ss@, ds@);
    match a {
        ComposableQueryAttribute::Params(p) => {
            ps.insert(0, p);
            proof {
                assert(ps@ =~= seq![p] + ps0);
            }
        },
        ComposableQueryAttribute::With(w) => {
            ws.insert(0, w);
            proof {
                assert(ws@ =~= seq![w] + ws0);
            }
        },
        ComposableQueryAttribute::Select(v) => {
            ss.insert(0, v);
            proof {
                assert(ss@ =~= seq![v] + ss0);
            }
        },
        ComposableQueryAttribute::Direct(d) => {
            ds.insert(0, d);
            proof {
                assert(ds@ =~= seq![d] + ds0);
            }
        },
    }
    (ps, ws, ss, ds)
}

/// The members are what the host language can hand over: either every member
/// named, or unnamed members (a tuple structure).
pub open spec fn struct_data_wf(fields: StructData) -> bool {
    match fields {
        StructData::Struct(fs) => (fs@.len() > 0 && fs@[0].field_name is Some) ==> (forall|i: int|
            0 <= i < fs@.len() ==> (#[trigger] fs@[i]).field_name is Some),
        StructData::Enum => true,
    }
}

/// Checks [`struct_data_wf`] at run time, for callers built from sources
/// this library has no contract with.
#[verifier::loop_isolation(false)]
pub fn struct_data_is_wf(fields: &StructData) -> (r: bool)
    ensures
        r == struct_data_wf(*fields),
{
    match fields {
        StructData::Enum => true,
        StructData::Struct(fs) => {
            if fs.len() == 0 {
                return true;
            }
            if fs[0].field_name.is_none() {
                return true;
            }
            let n = fs.len();
            let mut i: usize = 0;
            while i < n
                invariant
                    0 <= i <= n,
                    n == fs@.len(),
                    forall|j: int| 0 <= j < i ==> (#[trigger] fs@[j]).field_name is Some,
                decreases n - i,
            {
                if fs[i].field_name.is_none() {
                    return false;
                }
                i += 1;
            }
            true
        },
    }
}

/// The explicit-selector field list a member list produces: each member
/// under its own name, recursing into its type unless a `var` override
/// supplies a computed expression.
pub open spec fn sel_items_of(fs: Seq<ComposableQueryReturn>) -> Seq<(String, SelectorValue)> {
    Seq::new(
        fs.len(),
        |i: int|
            (
                fs[i].field_name->0,
                match fs[i].var {
                    Some(v) => SelectorValue::Computed(v),
                    None => SelectorValue::SubSelector(fs[i].ty),
                },
            ),
    )
}

/// The free-object field list a member list produces: each member bound to
/// its own name unless a `var` override is present.
pub open spec fn obj_items_of(fs: Seq<ComposableQueryReturn>) -> Seq<(String, QueryVar)> {
    Seq::new(
        fs.len(),
        |i: int|
            (
                fs[i].field_name->0,
                match fs[i].var {
                    Some(v) => v,
                    None => QueryVar::Var(fs[i].field_name->0),
                },
            ),
    )
}

/// The shape error of one structure, given the effective `select` and
/// `direct` annotations.
pub open spec fn shape_err(
    select: Option<QueryVar>,
    direct: Option<String>,
    fields: StructData,
) -> Option<AttrError> {
    match fields {
        StructData::Enum => Some(AttrError::EnumsNotSupported),
        StructData::Struct(fs) => if fs@.len() == 0 {
            if direct is Some {
                None
            } else {
                Some(AttrError::EmptyStructNeedsDirect)
            }
        } else if fs@[0].field_name is None {
            if fs@.len() != 1 {
                Some(AttrError::ExpectedSingleUnnamedField)
            } else if direct is Some || select is Some {
                None
            } else {
                Some(AttrError::WrapperNeedsSelectOrDirect)
            }
        } else if direct is Some {
            Some(AttrError::DirectOnNonEmptyStruct)
        } else {
            None
        },
    }
}

/// All validation errors of one structure, in reporting order: attribute
/// multiplicities, the `select`/`direct` conflict, then the shape error.
pub open spec fn into_query_errors(
    attrs: Seq<ComposableQueryAttribute>,
    fields: StructData,
) -> Seq<AttrError> {
    let ps = params_of(attrs);
    let ss = selects_of(attrs);
    let ds = directs_of(attrs);
    let sel = if ss.len() == 1 {
        Some(ss[0])
    } else {
        None::<QueryVar>
    };
    let dir = if ds.len() == 1 {
        Some(ds[0])
    } else {
        None::<String>
    };
    (if ps.len() > 1 {
        seq![AttrError::MultipleParamsAttrs]
    } else {
        Seq::<AttrError>::empty()
    }) + (if ss.len() > 1 {
        seq![AttrError::MultipleSelectAttrs]
    } else {
        Seq::<AttrError>::empty()
    }) + (if ds.len() > 1 {
        seq![AttrError::MultipleDirectAttrs]
    } else {
        Seq::<AttrError>::empty()
    }) + (if sel is Some && dir is Some {
        seq![AttrError::SelectAndDirect]
    } else {
        Seq::<AttrError>::empty()
    }) + (match shape_err(sel, dir, fields) {
        Some(e) => seq![e],
        None => Seq::<AttrError>::empty(),
    })
}

/// A validated query is built correctly from the parsed attributes and the
/// member list: the declared parameters, the explicit with-bindings (then
/// any desugared `_selector` binding), and the selector the structure's
/// shape dictates.
pub open spec fn into_query_ok(
    attrs: Seq<ComposableQueryAttribute>,
    fields: StructData,
    q: Query,
) -> bool {
    let ps = params_of(attrs);
    let ws = withs_of(attrs);
    let ss = selects_of(attrs);
    let ds = directs_of(attrs);
    let sel = if ss.len() == 1 {
        Some(ss[0])
    } else {
        None::<QueryVar>
    };
    let dir = if ds.len() == 1 {
        Some(ds[0])
    } else {
        None::<String>
    };
    &&& (if ps.len() == 1 {
        q.params == ps[0]
    } else {
        q.params.0@.len() == 0
    })
    &&& match fields {
        StructData::Enum => false,
        StructData::Struct(fs) => if fs@.len() == 0 {
            &&& dir is Some
            &&& q.withs@ == ws
            &&& match q.result {
                QuerySelector::Direct(v, ty) => v == QueryVar::Var(dir->0) && ty == TypeRef::Unit,
                _ => false,
            }
        } else if fs@[0].field_name is None {
            &&& fs@.len() == 1
            &&& (dir is Some || sel is Some)
            &&& {
                let src = if dir is Some {
                    QueryVar::Var(dir->0)
                } else {
                    sel->0
                };
                &&& q.withs@.len() == ws.len() + 1
                &&& q.withs@.take(ws.len() as int) == ws
                &&& q.withs@.last().0@ == "_selector"@
                &&& q.withs@.last().1 == src
                &&& match q.result {
                    QuerySelector::Direct(v, ty) => (match v {
                        QueryVar::Var(s2) => s2@ == "_selector"@,
                        _ => false,
                    }) && ty == fs@[0].ty,
                    _ => false,
                }
            }
        } else if dir is Some {
            false
        } else if sel is Some {
            match q.result {
                QuerySelector::Selector(src, items) => items@ == sel_items_of(fs@) && (match sel
                    ->0 {
                    QueryVar::Var(s) => if is_simple_name(s@) {
                        &&& src == s
                        &&& q.withs@ == ws
                    } else {
                        &&& src@ == "_selector"@
                        &&& q.withs@.len() == ws.len() + 1
                        &&& q.withs@.take(ws.len() as int) == ws
                        &&& q.withs@.last().0@ == "_selector"@
                        &&& q.withs@.last().1 == sel->0
                    },
                    QueryVar::Call(_, _) => {
                        &&& src@ == "_selector"@
                        &&& q.withs@.len() == ws.len() + 1
                        &&& q.withs@.take(ws.len() as int) == ws
                        &&& q.withs@.last().0@ == "_selector"@
                        &&& q.withs@.last().1 == sel->0
                    },
                }),
                _ => false,
            }
        } else {
            &&& q.withs@ == ws
            &&& match q.result {
                QuerySelector::Object(m) => m@ == obj_items_of(fs@),
                _ => false,
            }
        },
    }
}


fn build_sel_items(fs: Vec<ComposableQueryReturn>) -> (r: Vec<(String, SelectorValue)>)
    requires
        forall|i: int| 0 <= i < fs@.len() ==> (#[trigger] fs@[i]).field_name is Some,
    ensures
        r@ == sel_items_of(fs@),
{
    let ghost fs0 = fs@;
    let mut rest = fs;
    let mut out: Vec<(String, SelectorValue)> = Vec::new();
    proof {
        assert(fs0.skip(0) =~= fs0);
    }
    while rest.len() > 0
        invariant
            out@.len() + rest@.len() == fs0.len(),
            rest@ == fs0.skip(out@.len() as int),
            forall|i: int| 0 <= i < fs0.len() ==> (#[trigger] fs0[i]).field_name is Some,
            forall|j: int| 0 <= j < out@.len() ==> out@[j] == sel_items_of(fs0)[j],
        decreases rest@.len(),
    {
        let ghost k = out@.len() as int;
        let f = rest.remove(0);
        proof {
            assert(f == fs0[k]);
            assert(rest@ =~= fs0.skip(k + 1));
        }
        let name = match f.field_name {
            Some(n) => n,
            None => {
                proof {
                    assert(false);
                }
                String::new()
            },
        };
        let value = match f.var {
            Some(v) => SelectorValue::Computed(v),
            None => SelectorValue::SubSelector(f.ty),
        };
        out.push((name, value));
        proof {
            assert(out@[k] == sel_items_of(fs0)[k]);
        }
    }
    proof {
        assert(out@ =~= sel_items_of(fs0));
    }
    out
}

fn build_obj_items(fs: Vec<ComposableQueryReturn>) -> (r: Vec<(String, QueryVar)>)
    requires
        forall|i: int| 0 <= i < fs@.len() ==> (#[trigger] fs@[i]).field_name is Some,
    ensures
        r@ == obj_items_of(fs@),
{
    let ghost fs0 = fs@;
    let mut rest = fs;
    let mut out: Vec<(String, QueryVar)> = Vec::new();
    proof {
        assert(fs0.skip(0) =~= fs0);
    }
    while rest.len() > 0
        invariant
            out@.len() + rest@.len() == fs0.len(),
            rest@ == fs0.skip(out@.len() as int),
            forall|i: int| 0 <= i < fs0.len() ==> (#[trigger] fs0[i]).field_name is Some,
            forall|j: int| 0 <= j < out@.len() ==> out@[j] == obj_items_of(fs0)[j],
        decreases rest@.len(),
    {
        let ghost k = out@.len() as int;
        let f = rest.remove(0);
        proof {
            assert(f == fs0[k]);
            assert(rest@ =~= fs0.skip(k + 1));
        }
        let name = match f.field_name {
            Some(n) => n,
            None => {
                proof {
                    assert(false);
                }
                String::new()
            },
        };
        let value = match f.var {
            Some(v) => v,
            None => QueryVar::Var(name.clone()),
        };
        out.push((name, value));
        proof {
            assert(out@[k] == obj_items_of(fs0)[k]);
        }
    }
    proof {
        assert(out@ =~= obj_items_of(fs0));
    }
    out
}

impl ComposableQueryAttribute {
    /// Validates the parsed annotations against the structure's shape and
    /// builds the query: parameters, with-bindings (desugaring a non-trivial
    /// or wrapper selector source into a `_selector` binding), and the
    /// selector. Every independent violation is reported, not only the
    /// first.
    pub fn into_query(attrs: Vec<ComposableQueryAttribute>, fields: StructData) -> (r: Result<
        Query,
        Vec<AttrError>,
    >)
        requires
            struct_data_wf(fields),
        ensures
            (match r {
                Ok(q) => into_query_errors(attrs@, fields).len() == 0 && into_query_ok(
                    attrs@,
                    fields,
                    q,
                ),
                Err(es) => es@ == into_query_errors(attrs@, fields) && es@.len() > 0,
            }),
    {
        let ghost attrs0 = attrs@;
        let ghost fields0 = fields;
        let (mut params_list, mut withs, mut selects, mut directs) = partition_attrs(attrs);
        let ghost ws = withs@;
        let mut errors: Vec<AttrError> = Vec::new();
        if params_list.len() > 1 {
            errors.push(AttrError::MultipleParamsAttrs);
        }
        let params: Params = if params_list.len() == 1 {
            params_list.remove(0)
        } else {
            Params(Vec::new())
        };
        if selects.len() > 1 {
            errors.push(AttrError::MultipleSelectAttrs);
        }
        let select: Option<QueryVar> = if selects.len() == 1 {
            Some(selects.remove(0))
        } else {
            None
        };
        if directs.len() > 1 {
            errors.push(AttrError::MultipleDirectAttrs);
        }
        let direct: Option<String> = if directs.len() == 1 {
            Some(directs.remove(0))
        } else {
            None
        };
        if select.is_some() && direct.is_some() {
            errors.push(AttrError::SelectAndDirect);
        }
        proof {
            let ps = params_of(attrs0);
            let ss = selects_of(attrs0);
            let ds = directs_of(attrs0);
            let e1: Seq<AttrError> = if ps.len() > 1 {
                seq![AttrError::MultipleParamsAttrs]
            } else {
                Seq::<AttrError>::empty()
            };
            let e2: Seq<AttrError> = if ss.len() > 1 {
                seq![AttrError::MultipleSelectAttrs]
            } else {
                Seq::<AttrError>::empty()
            };
            let e3: Seq<AttrError> = if ds.len() > 1 {
                seq![AttrError::MultipleDirectAttrs]
            } else {
                Seq::<AttrError>::empty()
            };
            let e4: Seq<AttrError> = if ss.len() == 1 && ds.len() == 1 {
                seq![AttrError::SelectAndDirect]
            } else {
                Seq::<AttrError>::empty()
            };
            assert(errors@ =~= e1 + e2 + e3 + e4);
        }
        match fields {
            StructData::Enum => {
                errors.push(AttrError::EnumsNotSupported);
                proof {
                    assert(errors@ =~= into_query_errors(attrs0, fields0));
                }
                Err(errors)
            },
            StructData::Struct(fs) => {
                let mut fs = fs;
                if fs.len() == 0 {
                    match direct {
                        Some(d) => {
                            if errors.len() == 0 {
                                proof {
                                    assert(into_query_errors(attrs0, fields0) =~= Seq::<
                                        AttrError,
                                    >::empty());
                                }
                                Ok(
                                    Query {
                                        params,
                                        withs,
                                        result: QuerySelector::Direct(
                                            QueryVar::Var(d),
                                            TypeRef::Unit,
                                        ),
                                    },
                                )
                            } else {
                                proof {
                                    assert(errors@ =~= into_query_errors(attrs0, fields0));
                                }
                                Err(errors)
                            }
                        },
                        None => {
                            errors.push(AttrError::EmptyStructNeedsDirect);
                            proof {
                                assert(errors@ =~= into_query_errors(attrs0, fields0));
                            }
                            Err(errors)
                        },
                    }
                } else if fs[0].field_name.is_none() {
                    if fs.len() != 1 {
                        errors.push(AttrError::ExpectedSingleUnnamedField);
                        proof {
                            assert(errors@ =~= into_query_errors(attrs0, fields0));
                        }
                        Err(errors)
                    } else {
                        let src: Option<QueryVar> = match direct {
                            Some(d) => Some(QueryVar::Var(d)),
                            None => select,
                        };
                        match src {
                            Some(sv) => {
                                withs.push(With("_selector".to_owned(), sv));
                                let f0 = fs.remove(0);
                                let result = QuerySelector::Direct(
                                    QueryVar::Var("_selector".to_owned()),
                                    f0.ty,
                                );
                                proof {
                                    assert(withs@.take(ws.len() as int) =~= ws);
                                }
                                if errors.len() == 0 {
                                    proof {
                                        assert(into_query_errors(attrs0, fields0) =~= Seq::<
                                            AttrError,
                                        >::empty());
                                    }
                                    Ok(Query { params, withs, result })
                                } else {
                                    proof {
                                        assert(errors@ =~= into_query_errors(attrs0, fields0));
                                    }
                                    Err(errors)
                                }
                            },
                            None => {
                                errors.push(AttrError::WrapperNeedsSelectOrDirect);
                                proof {
                                    assert(errors@ =~= into_query_errors(attrs0, fields0));
                                }
                                Err(errors)
                            },
                        }
                    }
                } else if direct.is_some() {
                    errors.push(AttrError::DirectOnNonEmptyStruct);
                    proof {
                        assert(errors@ =~= into_query_errors(attrs0, fields0));
                    }
                    Err(errors)
                } else if select.is_some() {
                    let sv = select.unwrap();
                    let simple = sv.as_simple_name_or_ref().is_some();
                    let items = build_sel_items(fs);
                    if simple {
                        match sv {
                            QueryVar::Var(s) => {
                                let result = QuerySelector::Selector(s, items);
                                if errors.len() == 0 {
                                    proof {
                                        assert(into_query_errors(attrs0, fields0) =~= Seq::<
                                            AttrError,
                                        >::empty());
                                    }
                                    Ok(Query { params, withs, result })
                                } else {
                                    proof {
                                        assert(errors@ =~= into_query_errors(attrs0, fields0));
                                    }
                                    Err(errors)
                                }
                            },
                            QueryVar::Call(_, _) => {
                                proof {
                                    assert(false);
                                }
                                Err(errors)
                            },
                        }
                    } else {
                        withs.push(With("_selector".to_owned(), sv));
                        let result = QuerySelector::Selector("_selector".to_owned(), items);
                        proof {
                            assert(withs@.take(ws.len() as int) =~= ws);
                        }
                        if errors.len() == 0 {
                            proof {
                                assert(into_query_errors(attrs0, fields0) =~= Seq::<
                                    AttrError,
                                >::empty());
                            }
                            Ok(Query { params, withs, result })
                        } else {
                            proof {
                                assert(errors@ =~= into_query_errors(attrs0, fields0));
                            }
                            Err(errors)
                        }
                    }
                } else {
                    let m = build_obj_items(fs);
                    let result = QuerySelector::Object(m);
                    if errors.len() == 0 {
                        proof {
                            assert(into_query_errors(attrs0, fields0) =~= Seq::<
                                AttrError,
                            >::empty());
                        }
                        Ok(Query { params, withs, result })
                    } else {
                        proof {
                            assert(errors@ =~= into_query_errors(attrs0, fields0));
                        }
                        Err(errors)
                    }
                }
            },
        }
    }
}


/// The error of one member's `var` annotations, if any: a value that does
/// not parse, or more than one `var` annotation.
pub open spec fn field_err(f: FieldInput) -> Option<AttrError> {
    if f.var_attrs@.len() == 0 {
        None
    } else {
        match from_expr_err(f.var_attrs@[0]) {
            Some(e) => Some(e),
            None => if f.var_attrs@.len() > 1 {
                Some(AttrError::MultipleVarAttrs)
            } else {
                None
            },
        }
    }
}

/// One member's `var` override parses to `var`.
pub open spec fn field_var_ok(f: FieldInput, var: Option<QueryVar>) -> bool {
    if f.var_attrs@.len() == 0 {
        var is None
    } else {
        match var {
            Some(v) => from_expr_ok(f.var_attrs@[0], v),
            None => false,
        }
    }
}

impl ComposableQueryReturn {
    /// Reads one member: its name and type carry over, and at most one
    /// `var(...)` annotation supplies a computed override.
    pub fn from_field(field: FieldInput) -> (r: Result<ComposableQueryReturn, AttrError>)
        ensures
            (match r {
                Ok(out) => field_err(field) is None && out.field_name == field.field_name && out.ty
                    == field.ty && field_var_ok(field, out.var),
                Err(e) => field_err(field) == Some(e),
            }),
    {
        let FieldInput { field_name, ty, var_attrs } = field;
        if var_attrs.len() == 0 {
            return Ok(ComposableQueryReturn { field_name, ty, var: None });
        }
        let v = match QueryVar::from_expr(&var_attrs[0]) {
            Ok(v) => v,
            Err(e) => {
                return Err(e);
            },
        };
        if var_attrs.len() > 1 {
            return Err(AttrError::MultipleVarAttrs);
        }
        Ok(ComposableQueryReturn { field_name, ty, var: Some(v) })
    }
}

/// All member errors, in declaration order.
pub open spec fn fields_errs(fis: Seq<FieldInput>) -> Seq<AttrError>
    decreases fis.len(),
{
    if fis.len() == 0 {
        Seq::<AttrError>::empty()
    } else {
        (match field_err(fis[0]) {
            Some(e) => seq![e],
            None => Seq::<AttrError>::empty(),
        }) + fields_errs(fis.skip(1))
    }
}

/// Every member parsed, pairwise and in order.
pub open spec fn fields_ok(fis: Seq<FieldInput>, out: Seq<ComposableQueryReturn>) -> bool {
    out.len() == fis.len() && (forall|i: int|
        0 <= i < fis.len() ==> (#[trigger] out[i]).field_name == fis[i].field_name && out[i].ty
            == fis[i].ty && field_var_ok(fis[i], out[i].var))
}

/// Reads every member, accumulating the errors of all of them.
pub fn fields_from_inputs(fis: Vec<FieldInput>) -> (r: Result<
    Vec<ComposableQueryReturn>,
    Vec<AttrError>,
>)
    ensures
        (match r {
            Ok(out) => fields_errs(fis@).len() == 0 && fields_ok(fis@, out@),
            Err(es) => es@ == fields_errs(fis@) && es@.len() > 0,
        }),
{
    let ghost fis0 = fis@;
    let mut rest = fis;
    let mut out: Vec<ComposableQueryReturn> = Vec::new();
    let mut errs: Vec<AttrError> = Vec::new();
    proof {
        assert(fis0.skip(0) =~= fis0);
    }
    while rest.len() > 0
        invariant
            out@.len() + errs@.len() <= fis0.len() - rest@.len(),
            rest@ == fis0.skip((fis0.len() - rest@.len()) as int),
            rest@.len() <= fis0.len(),
            errs@ + fields_errs(rest@) =~= fields_errs(fis0),
            errs@.len() == 0 ==> (out@.len() == fis0.len() - rest@.len() && (forall|i: int|
                0 <= i < out@.len() ==> (#[trigger] out@[i]).field_name == fis0[i].field_name
                    && out@[i].ty == fis0[i].ty && field_var_ok(fis0[i], out@[i].var))),
        decreases rest@.len(),
    {
        let ghost k = (fis0.len() - rest@.len()) as int;
        let ghost reste = fields_errs(rest@);
        let f = rest.remove(0);
        proof {
            assert(f == fis0[k]);
            assert(rest@ =~= fis0.skip(k + 1));
        }
        match ComposableQueryReturn::from_field(f) {
            Ok(c) => {
                if errs.len() == 0 {
                    out.push(c);
                }
            },
            Err(e) => {
                errs.push(e);
                proof {
                    assert(seq![e] + fields_errs(fis0.skip(k + 1)) =~= reste);
                }
            },
        }
    }
    proof {
        assert(fields_errs(rest@).len() == 0);
        assert(errs@ =~= errs@ + fields_errs(rest@));
    }
    if errs.len() > 0 {
        Err(errs)
    } else {
        Ok(out)
    }
}

/// The members of the annotated item, as the host front-end hands them over.
#[derive(Debug, PartialEq, Eq)]
pub enum FieldsInput {
    Struct(Vec<FieldInput>),
    Enum,
}

/// One annotated structure, as the host front-end hands it over: its
/// attributes and its members.
#[derive(Debug, PartialEq, Eq)]
pub struct StructInput {
    pub attrs: Vec<RawAttr>,
    pub data: FieldsInput,
}

/// The members are well formed in the host language's sense; see
/// [`struct_data_wf`].
pub open spec fn fields_input_wf(data: FieldsInput) -> bool {
    match data {
        FieldsInput::Struct(fis) => (fis@.len() > 0 && fis@[0].field_name is Some) ==> (forall|
            i: int,
        | 0 <= i < fis@.len() ==> (#[trigger] fis@[i]).field_name is Some),
        FieldsInput::Enum => true,
    }
}

/// Checks [`fields_input_wf`] at run time.
#[verifier::loop_isolation(false)]
pub fn fields_input_is_wf(data: &FieldsInput) -> (r: bool)
    ensures
        r == fields_input_wf(*data),
{
    match data {
        FieldsInput::Enum => true,
        FieldsInput::Struct(fis) => {
            if fis.len() == 0 {
                return true;
            }
            if fis[0].field_name.is_none() {
                return true;
            }
            let n = fis.len();
            let mut i: usize = 0;
            while i < n
                invariant
                    0 <= i <= n,
                    n == fis@.len(),
                    forall|j: int| 0 <= j < i ==> (#[trigger] fis@[j]).field_name is Some,
                decreases n - i,
            {
                if fis[i].field_name.is_none() {
                    return false;
                }
                i += 1;
            }
            true
        },
    }
}

/// Whether the member-reading stage of `input` reports no error.
pub open spec fn fields_stage_clean(data: FieldsInput) -> bool {
    match data {
        FieldsInput::Struct(fis) => fields_errs(fis@).len() == 0,
        FieldsInput::Enum => true,
    }
}

/// The whole front half of the derivation for one annotated structure:
/// reads the members, reads and validates the attributes, and builds the
/// query representation. Each stage reports all its errors together; a stage
/// with errors stops the derivation.
pub fn derive_query(input: StructInput) -> (r: Result<Query, Vec<AttrError>>)
    requires
        fields_input_wf(input.data),
    ensures
        (match r {
            Ok(q) => exists|cqas: Seq<ComposableQueryAttribute>, data2: StructData|
                {
                    &&& #[trigger] into_query_ok(cqas, data2, q)
                    &&& into_query_errors(cqas, data2).len() == 0
                    &&& from_attrs_errs(input.attrs@).len() == 0
                    &&& from_attrs_ok(input.attrs@, cqas)
                    &&& match (input.data, data2) {
                        (FieldsInput::Struct(fis), StructData::Struct(frs)) => fields_errs(
                            fis@,
                        ).len() == 0 && fields_ok(fis@, frs@),
                        (FieldsInput::Enum, StructData::Enum) => true,
                        _ => false,
                    }
                },
            Err(es) => es@.len() > 0 && ((match input.data {
                FieldsInput::Struct(fis) => fields_errs(fis@).len() > 0 && es@ == fields_errs(
                    fis@,
                ),
                FieldsInput::Enum => false,
            }) || (fields_stage_clean(input.data) && from_attrs_errs(input.attrs@).len() > 0 && es@
                == from_attrs_errs(input.attrs@)) || (fields_stage_clean(input.data)
                && from_attrs_errs(input.attrs@).len() == 0 && exists|
                cqas: Seq<ComposableQueryAttribute>,
                data2: StructData,
            |
                #![trigger into_query_errors(cqas, data2)]
                {
                    &&& from_attrs_ok(input.attrs@, cqas)
                    &&& match (input.data, data2) {
                        (FieldsInput::Struct(fis), StructData::Struct(frs)) => fields_ok(
                            fis@,
                            frs@,
                        ),
                        (FieldsInput::Enum, StructData::Enum) => true,
                        _ => false,
                    }
                    &&& es@ == into_query_errors(cqas, data2)
                })),
        }),
{
    let StructInput { attrs, data } = input;
    let fields: StructData = match data {
        FieldsInput::Enum => StructData::Enum,
        FieldsInput::Struct(fis) => {
            let ghost fis0 = fis@;
            match fields_from_inputs(fis) {
                Ok(frs) => {
                    proof {
                        assert(forall|i: int|
                            0 <= i < frs@.len() ==> (#[trigger] frs@[i]).field_name
                                == fis0[i].field_name);
                    }
                    StructData::Struct(frs)
                },
                Err(es) => {
                    return Err(es);
                },
            }
        },
    };
    let cqas = match ComposableQueryAttribute::from_attrs(&attrs) {
        Ok(cqas) => cqas,
        Err(es) => {
            return Err(es);
        },
    };
    ComposableQueryAttribute::into_query(cqas, fields)
}

/// Error accumulation: a structure whose attributes declare two `params`
/// lists and both a `select` and a `direct` source reports both violations
/// from one validation pass — the multiplicity error and the conflict —
/// provided its shape is otherwise acceptable.
pub proof fn lemma_error_accumulation(attrs: Seq<ComposableQueryAttribute>, fields: StructData)
    requires
        params_of(attrs).len() == 2,
        selects_of(attrs).len() == 1,
        directs_of(attrs).len() == 1,
        shape_err(Some(selects_of(attrs)[0]), Some(directs_of(attrs)[0]), fields) is None,
    ensures
        into_query_errors(attrs, fields) =~= seq![
            AttrError::MultipleParamsAttrs,
            AttrError::SelectAndDirect,
        ],
{
}

/// Selector defaulting: a structure with named members and neither `select`
/// nor `direct` becomes a free object in which every member is bound to its
/// own name, unless a `var` override supplies the expression.
pub proof fn lemma_selector_defaulting(
    attrs: Seq<ComposableQueryAttribute>,
    fs: Vec<ComposableQueryReturn>,
    q: Query,
)
    requires
        into_query_ok(attrs, StructData::Struct(fs), q),
        selects_of(attrs).len() == 0,
        directs_of(attrs).len() == 0,
        fs@.len() > 0,
        fs@[0].field_name is Some,
    ensures
        q.withs@ == withs_of(attrs),
        q.result matches QuerySelector::Object(m) && m@ == obj_items_of(fs@),
        q.result matches QuerySelector::Object(m) ==> forall|i: int|
            0 <= i < fs@.len() ==> (#[trigger] m@[i]).0 == fs@[i].field_name->0 && m@[i].1 == (
            match fs@[i].var {
                Some(v) => v,
                None => QueryVar::Var(fs@[i].field_name->0),
            }),
{
}

} // verus!
