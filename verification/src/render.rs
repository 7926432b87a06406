//! The query-text synthesizer: renders a validated [`Query`] into the final
//! query-language source text, deterministically.
//!
//! Rendering is specified by pure functions over character sequences; every
//! executable function returns exactly what its specification computes, so
//! rendering the same query twice yields byte-identical text.
//!
//! Composition is resolved against a [`QueryEnv`]: a `Call` embeds the fully
//! rendered, re-indented, parenthesized text of the named target query.
//! Nesting depth is bounded by an explicit budget (`fuel`); exceeding it is
//! a rendering error, never a crash.

use vstd::prelude::*;

use crate::composable::{selector_result_kind, subquery_text, ComposableQueryResultKind};
use crate::object::str_eq;
use crate::query_ir::{Params, Query, QuerySelector, QueryVar, ScalarKind, SelectorValue, TypeRef,
    With};

verus! {

/// Why rendering failed. Rendering is total but for these cases: a missing
/// argument for a declared parameter, a parameter type with no cast, a call
/// target that is not registered, or an exhausted nesting budget.
#[derive(Debug, Clone, Copy, PartialEq, Eq, Structural)]
pub enum RenderError {
    OutOfFuel,
    MissingArgument,
    UnsupportedParamType,
    UnknownTarget,
}

/// The decimal digit character for `d`.
pub open spec fn digit_char(d: int) -> char {
    if d == 0 {
        '0'
    } else if d == 1 {
        '1'
    } else if d == 2 {
        '2'
    } else if d == 3 {
        '3'
    } else if d == 4 {
        '4'
    } else if d == 5 {
        '5'
    } else if d == 6 {
        '6'
    } else if d == 7 {
        '7'
    } else if d == 8 {
        '8'
    } else {
        '9'
    }
}

/// The decimal rendering of `n`, most significant digit first.
pub open spec fn spec_decimal(n: nat) -> Seq<char>
    decreases n,
{
    if n < 10 {
        seq![digit_char(n as int)]
    } else {
        spec_decimal(n / 10).push(digit_char((n % 10) as int))
    }
}

fn digit_str(d: usize) -> (r: &'static str)
    requires
        d < 10,
    ensures
        r@ == seq![digit_char(d as int)],
{
    let r: &'static str = if d == 0 {
        "0"
    } else if d == 1 {
        "1"
    } else if d == 2 {
        "2"
    } else if d == 3 {
        "3"
    } else if d == 4 {
        "4"
    } else if d == 5 {
        "5"
    } else if d == 6 {
        "6"
    } else if d == 7 {
        "7"
    } else if d == 8 {
        "8"
    } else {
        "9"
    };
    proof {
        reveal_strlit("0");
        reveal_strlit("1");
        reveal_strlit("2");
        reveal_strlit("3");
        reveal_strlit("4");
        reveal_strlit("5");
        reveal_strlit("6");
        reveal_strlit("7");
        reveal_strlit("8");
        reveal_strlit("9");
        assert(r@ =~= seq![digit_char(d as int)]);
    }
    r
}

/// Appends the decimal rendering of `n` to `out`.
pub fn push_decimal(n: usize, out: &mut String)
    ensures
        final(out)@ == old(out)@ + spec_decimal(n as nat),
    decreases n,
{
    if n < 10 {
        out.append(digit_str(n));
    } else {
        push_decimal(n / 10, out);
        out.append(digit_str(n % 10));
        proof {
            assert(out@ =~= old(out)@ + spec_decimal(n as nat));
        }
    }
}

/// The text with every line after a newline indented by one tab stop.
pub open spec fn spec_add_indent(s: Seq<char>) -> Seq<char>
    decreases s.len(),
{
    if s.len() == 0 {
        s
    } else if s[0] == '\n' {
        seq!['\n', '\t'] + spec_add_indent(s.skip(1))
    } else {
        seq![s[0]] + spec_add_indent(s.skip(1))
    }
}

fn add_indent_from(s: &str, i: usize, out: &mut String)
    requires
        i <= s@.len(),
    ensures
        final(out)@ == old(out)@ + spec_add_indent(s@.skip(i as int)),
    decreases s@.len() - i,
{
    let n = s.unicode_len();
    if i >= n {
        proof {
            assert(s@.skip(i as int) =~= Seq::<char>::empty());
            assert(out@ =~= out@ + spec_add_indent(s@.skip(i as int)));
        }
        return ;
    }
    let c = s.get_char(i);
    if c == '\n' {
        out.append("\n\t");
        proof {
            reveal_strlit("\n\t");
            assert("\n\t"@ =~= seq!['\n', '\t']);
        }
    } else {
        let piece = s.substring_char(i, i + 1);
        out.append(piece);
        proof {
            assert(piece@ =~= seq![s@[i as int]]);
        }
    }
    add_indent_from(s, i + 1, out);
    proof {
        assert(s@.skip(i as int)[0] == s@[i as int]);
        assert(s@.skip(i as int).skip(1) =~= s@.skip(i + 1));
        assert(out@ =~= old(out)@ + spec_add_indent(s@.skip(i as int)));
    }
}

/// Re-indents a rendered sub-query by one tab stop: every newline gains a
/// following tab.
pub fn query_add_indent(s: &str) -> (r: String)
    ensures
        r@ == spec_add_indent(s@),
{
    let mut out = String::new();
    add_indent_from(s, 0, &mut out);
    proof {
        assert(s@.skip(0) =~= s@);
    }
    out
}

/// The type-cast name of a scalar.
pub open spec fn scalar_cast(k: ScalarKind) -> Seq<char> {
    match k {
        ScalarKind::Int16 => "int16"@,
        ScalarKind::Int32 => "int32"@,
        ScalarKind::Int64 => "int64"@,
        ScalarKind::Bool => "bool"@,
        ScalarKind::Str => "str"@,
        ScalarKind::Uuid => "uuid"@,
        ScalarKind::Json => "json"@,
    }
}

/// The cast a parameter of type `ty` renders with: `<name>` for a scalar,
/// `<optional name>` for an optional scalar, nothing else is castable.
pub open spec fn spec_type_cast(ty: TypeRef) -> Option<Seq<char>> {
    match ty {
        TypeRef::Scalar(k) => Some(scalar_cast(k)),
        TypeRef::Optional(inner) => match *inner {
            TypeRef::Scalar(k) => Some("optional "@ + scalar_cast(k)),
            _ => None,
        },
        _ => None,
    }
}

fn scalar_cast_str(k: ScalarKind) -> (r: &'static str)
    ensures
        r@ == scalar_cast(k),
{
    match k {
        ScalarKind::Int16 => "int16",
        ScalarKind::Int32 => "int32",
        ScalarKind::Int64 => "int64",
        ScalarKind::Bool => "bool",
        ScalarKind::Str => "str",
        ScalarKind::Uuid => "uuid",
        ScalarKind::Json => "json",
    }
}

/// The parameter cast for `ty`, if it has one.
pub fn type_cast(ty: &TypeRef) -> (r: Option<String>)
    ensures
        (match r {
            Some(s) => spec_type_cast(*ty) == Some(s@),
            None => spec_type_cast(*ty) is None,
        }),
{
    match ty {
        TypeRef::Scalar(k) => Some(String::from_str(scalar_cast_str(*k))),
        TypeRef::Optional(inner) => match &**inner {
            TypeRef::Scalar(k) => {
                let mut s = String::from_str("optional ");
                s.append(scalar_cast_str(*k));
                Some(s)
            },
            _ => None,
        },
        _ => None,
    }
}

/// The named queries a render runs against: each entry registers one
/// composable structure's validated query under its path.
pub struct QueryEnv {
    pub entries: Vec<(String, Query)>,
}

/// The first registered query under `name`.
pub open spec fn spec_env_lookup(env: Seq<(String, Query)>, name: Seq<char>) -> Option<Query>
    decreases env.len(),
{
    if env.len() == 0 {
        None
    } else if env[0].0@ == name {
        Some(env[0].1)
    } else {
        spec_env_lookup(env.skip(1), name)
    }
}

proof fn lemma_env_lookup_skip(env: Seq<(String, Query)>, name: Seq<char>, i: int)
    requires
        0 <= i <= env.len(),
        forall|j: int| 0 <= j < i ==> (#[trigger] env[j]).0@ != name,
    ensures
        spec_env_lookup(env, name) == spec_env_lookup(env.skip(i), name),
    decreases i,
{
    if i > 0 {
        assert(forall|j: int| 0 <= j < i - 1 ==> (#[trigger] env.skip(1)[j]).0@ != name);
        lemma_env_lookup_skip(env.skip(1), name, i - 1);
        assert(env.skip(1).skip(i - 1) =~= env.skip(i));
    } else {
        assert(env.skip(0) =~= env);
    }
}

/// Finds the registered query under `name`.
#[verifier::loop_isolation(false)]
pub fn env_lookup<'a>(env: &'a QueryEnv, name: &str) -> (r: Option<&'a Query>)
    ensures
        (match r {
            Some(q) => spec_env_lookup(env.entries@, name@) == Some(*q),
            None => spec_env_lookup(env.entries@, name@) is None,
        }),
{
    let n = env.entries.len();
    let mut i: usize = 0;
    while i < n
        invariant
            0 <= i <= n,
            n == env.entries@.len(),
            forall|j: int| 0 <= j < i ==> (#[trigger] env.entries@[j]).0@ != name@,
        decreases n - i,
    {
        if str_eq(env.entries[i].0.as_str(), name) {
            proof {
                lemma_env_lookup_skip(env.entries@, name@, i as int);
                assert(env.entries@.skip(i as int)[0] == env.entries@[i as int]);
            }
            return Some(&env.entries[i].1);
        }
        i += 1;
    }
    proof {
        lemma_env_lookup_skip(env.entries@, name@, n as int);
        assert(env.entries@.skip(n as int).len() == 0);
    }
    None
}

/// The view of an argument map: each entry's name and text as sequences.
pub open spec fn args_view(args: Seq<(String, String)>) -> Seq<(Seq<char>, Seq<char>)> {
    Seq::new(args.len(), |i: int| (args[i].0@, args[i].1@))
}

/// The text bound to `name`: the first matching entry's.
pub open spec fn spec_args_lookup(args: Seq<(Seq<char>, Seq<char>)>, name: Seq<char>) -> Option<
    Seq<char>,
>
    decreases args.len(),
{
    if args.len() == 0 {
        None
    } else if args[0].0 == name {
        Some(args[0].1)
    } else {
        spec_args_lookup(args.skip(1), name)
    }
}

proof fn lemma_args_lookup_skip(args: Seq<(Seq<char>, Seq<char>)>, name: Seq<char>, i: int)
    requires
        0 <= i <= args.len(),
        forall|j: int| 0 <= j < i ==> (#[trigger] args[j]).0 != name,
    ensures
        spec_args_lookup(args, name) == spec_args_lookup(args.skip(i), name),
    decreases i,
{
    if i > 0 {
        assert(forall|j: int| 0 <= j < i - 1 ==> (#[trigger] args.skip(1)[j]).0 != name);
        lemma_args_lookup_skip(args.skip(1), name, i - 1);
        assert(args.skip(1).skip(i - 1) =~= args.skip(i));
    } else {
        assert(args.skip(0) =~= args);
    }
}

/// Finds the argument text bound to `name`.
#[verifier::loop_isolation(false)]
pub fn args_lookup<'a>(args: &'a Vec<(String, String)>, name: &str) -> (r: Option<&'a String>)
    ensures
        (match r {
            Some(s) => spec_args_lookup(args_view(args@), name@) == Some(s@),
            None => spec_args_lookup(args_view(args@), name@) is None,
        }),
{
    let n = args.len();
    let mut i: usize = 0;
    while i < n
        invariant
            0 <= i <= n,
            n == args@.len(),
            forall|j: int| 0 <= j < i ==> (#[trigger] args_view(args@)[j]).0 != name@,
        decreases n - i,
    {
        if str_eq(args[i].0.as_str(), name) {
            proof {
                lemma_args_lookup_skip(args_view(args@), name@, i as int);
                assert(args_view(args@).skip(i as int)[0] == args_view(args@)[i as int]);
            }
            return Some(&args[i].1);
        }
        i += 1;
    }
    proof {
        lemma_args_lookup_skip(args_view(args@), name@, n as int);
        assert(args_view(args@).skip(n as int).len() == 0);
    }
    None
}


/// What rendering a query-variable expression yields: an inline fragment is
/// its own text; a call embeds the target's whole query, re-indented, with
/// each binding rendered and parenthesized as the target's argument map.
pub open spec fn spec_render_var(env: Seq<(String, Query)>, v: QueryVar, fuel: nat) -> Result<
    Seq<char>,
    RenderError,
>
    decreases fuel,
{
    if fuel == 0 {
        Err(RenderError::OutOfFuel)
    } else {
        match v {
            QueryVar::Var(s) => Ok(s@),
            QueryVar::Call(target, bindings) => match spec_render_bindings(
                env,
                bindings@,
                (fuel - 1) as nat,
            ) {
                Ok(rargs) => match spec_env_lookup(env, target@) {
                    Some(q) => match spec_format_query(env, q, rargs, (fuel - 1) as nat) {
                        Ok(t) => Ok(spec_add_indent(t)),
                        Err(e) => Err(e),
                    },
                    None => Err(RenderError::UnknownTarget),
                },
                Err(e) => Err(e),
            },
        }
    }
}

/// The argument map a call hands to its target: each binding's name with the
/// binding's rendered, parenthesized text.
pub open spec fn spec_render_bindings(
    env: Seq<(String, Query)>,
    bs: Seq<(String, QueryVar)>,
    fuel: nat,
) -> Result<Seq<(Seq<char>, Seq<char>)>, RenderError>
    decreases fuel,
{
    if fuel == 0 {
        Err(RenderError::OutOfFuel)
    } else if bs.len() == 0 {
        Ok(Seq::empty())
    } else {
        match spec_render_var(env, bs[0].1, (fuel - 1) as nat) {
            Ok(t) => match spec_render_bindings(env, bs.skip(1), (fuel - 1) as nat) {
                Ok(rest) => Ok(seq![(bs[0].0@, "("@ + t + ")"@)] + rest),
                Err(e) => Err(e),
            },
            Err(e) => Err(e),
        }
    }
}

/// The `with` preamble's parameter lines: one `\tname := <cast>text,\n` per
/// declared parameter, in declaration order, with the text looked up by name
/// in the argument map.
pub open spec fn spec_params_text(
    params: Seq<(String, TypeRef)>,
    args: Seq<(Seq<char>, Seq<char>)>,
) -> Result<Seq<char>, RenderError>
    decreases params.len(),
{
    if params.len() == 0 {
        Ok(Seq::empty())
    } else {
        match spec_type_cast(params[0].1) {
            Some(cast) => match spec_args_lookup(args, params[0].0@) {
                Some(at) => match spec_params_text(params.skip(1), args) {
                    Ok(rest) => Ok(
                        "\t"@ + params[0].0@ + " := <"@ + cast + ">"@ + at + ",\n"@ + rest,
                    ),
                    Err(e) => Err(e),
                },
                None => Err(RenderError::MissingArgument),
            },
            None => Err(RenderError::UnsupportedParamType),
        }
    }
}

/// The `with` preamble's binding lines: one `\tname := (text),\n` per
/// with-binding, in order (explicit bindings first, then desugared ones).
pub open spec fn spec_withs_text(env: Seq<(String, Query)>, withs: Seq<With>, fuel: nat) -> Result<
    Seq<char>,
    RenderError,
>
    decreases fuel,
{
    if fuel == 0 {
        Err(RenderError::OutOfFuel)
    } else if withs.len() == 0 {
        Ok(Seq::empty())
    } else {
        match spec_render_var(env, withs[0].1, (fuel - 1) as nat) {
            Ok(t) => match spec_withs_text(env, withs.skip(1), (fuel - 1) as nat) {
                Ok(rest) => Ok("\t"@ + withs[0].0@ + " := ("@ + t + "),\n"@ + rest),
                Err(e) => Err(e),
            },
            Err(e) => Err(e),
        }
    }
}

/// One explicit-selector field list, joined by `,\n\t`: a field with no
/// override renders as its name followed by its type's embedded sub-query;
/// a computed field renders as `name := (expr)`.
pub open spec fn spec_selector_items_text(
    env: Seq<(String, Query)>,
    items: Seq<(String, SelectorValue)>,
    fuel: nat,
) -> Result<Seq<char>, RenderError>
    decreases fuel,
{
    if fuel == 0 {
        Err(RenderError::OutOfFuel)
    } else if items.len() == 0 {
        Ok(Seq::empty())
    } else {
        let item0: Result<Seq<char>, RenderError> = match items[0].1 {
            SelectorValue::SubSelector(ty) => match spec_subquery_of_type(
                env,
                ty,
                (fuel - 1) as nat,
            ) {
                Ok(t) => Ok(items[0].0@ + spec_add_indent(t)),
                Err(e) => Err(e),
            },
            SelectorValue::Computed(v) => match spec_render_var(env, v, (fuel - 1) as nat) {
                Ok(t) => Ok(items[0].0@ + " := ("@ + t + ")"@),
                Err(e) => Err(e),
            },
        };
        match item0 {
            Ok(t0) => if items.len() == 1 {
                Ok(t0)
            } else {
                match spec_selector_items_text(env, items.skip(1), (fuel - 1) as nat) {
                    Ok(rest) => Ok(t0 + ",\n\t"@ + rest),
                    Err(e) => Err(e),
                }
            },
            Err(e) => Err(e),
        }
    }
}

/// A free-object field list, one `\tname := (expr),` line per field, joined
/// by newlines.
pub open spec fn spec_object_items_text(
    env: Seq<(String, Query)>,
    items: Seq<(String, QueryVar)>,
    fuel: nat,
) -> Result<Seq<char>, RenderError>
    decreases fuel,
{
    if fuel == 0 {
        Err(RenderError::OutOfFuel)
    } else if items.len() == 0 {
        Ok(Seq::empty())
    } else {
        match spec_render_var(env, items[0].1, (fuel - 1) as nat) {
            Ok(t) => {
                let line = "\t"@ + items[0].0@ + " := ("@ + t + "),"@;
                if items.len() == 1 {
                    Ok(line)
                } else {
                    match spec_object_items_text(env, items.skip(1), (fuel - 1) as nat) {
                        Ok(rest) => Ok(line + "\n"@ + rest),
                        Err(e) => Err(e),
                    }
                }
            },
            Err(e) => Err(e),
        }
    }
}

/// The selector body a query's result clause writes between its braces.
pub open spec fn spec_selector_body(env: Seq<(String, Query)>, sel: QuerySelector, fuel: nat) -> Result<
    Seq<char>,
    RenderError,
>
    decreases fuel,
{
    if fuel == 0 {
        Err(RenderError::OutOfFuel)
    } else {
        match sel {
            QuerySelector::Selector(_, items) => match spec_selector_items_text(
                env,
                items@,
                (fuel - 1) as nat,
            ) {
                Ok(t) => Ok("\t"@ + t),
                Err(e) => Err(e),
            },
            QuerySelector::Object(items) => spec_object_items_text(env, items@, (fuel - 1) as nat),
            QuerySelector::Direct(_, ty) => spec_selector_of_type(env, ty, (fuel - 1) as nat),
        }
    }
}

/// The selector body a member type contributes: nothing for a scalar or the
/// unit type, the element's body for a cardinality wrapper, the id plus the
/// referenced type's body for a reference, and a named structure's own body
/// resolved through the environment.
pub open spec fn spec_selector_of_type(env: Seq<(String, Query)>, ty: TypeRef, fuel: nat) -> Result<
    Seq<char>,
    RenderError,
>
    decreases fuel,
{
    if fuel == 0 {
        Err(RenderError::OutOfFuel)
    } else {
        match ty {
            TypeRef::Scalar(_) => Ok(Seq::empty()),
            TypeRef::Unit => Ok(Seq::empty()),
            TypeRef::Optional(inner) => spec_selector_of_type(env, *inner, (fuel - 1) as nat),
            TypeRef::List(inner) => spec_selector_of_type(env, *inner, (fuel - 1) as nat),
            TypeRef::NonEmptyList(inner) => spec_selector_of_type(env, *inner, (fuel - 1) as nat),
            TypeRef::RefTo(inner) => match spec_selector_of_type(env, *inner, (fuel - 1) as nat) {
                Ok(t) => Ok("\tid,\n"@ + t),
                Err(e) => Err(e),
            },
            TypeRef::Named(n) => match spec_env_lookup(env, n@) {
                Some(q) => spec_selector_body(env, q.result, (fuel - 1) as nat),
                None => Err(RenderError::UnknownTarget),
            },
        }
    }
}

/// The result kind a member type renders as when embedded as a sub-query.
pub open spec fn spec_kind_of_type(env: Seq<(String, Query)>, ty: TypeRef, fuel: nat) -> Result<
    ComposableQueryResultKind,
    RenderError,
>
    decreases fuel,
{
    if fuel == 0 {
        Err(RenderError::OutOfFuel)
    } else {
        match ty {
            TypeRef::Scalar(_) => Ok(ComposableQueryResultKind::Field),
            TypeRef::Unit => Ok(ComposableQueryResultKind::Field),
            TypeRef::Optional(inner) => spec_kind_of_type(env, *inner, (fuel - 1) as nat),
            TypeRef::List(inner) => spec_kind_of_type(env, *inner, (fuel - 1) as nat),
            TypeRef::NonEmptyList(inner) => spec_kind_of_type(env, *inner, (fuel - 1) as nat),
            TypeRef::RefTo(_) => Ok(ComposableQueryResultKind::Selector),
            TypeRef::Named(n) => match spec_env_lookup(env, n@) {
                Some(q) => Ok(selector_result_kind(q.result)),
                None => Err(RenderError::UnknownTarget),
            },
        }
    }
}

/// What a member type writes after its field name when embedded: nothing
/// for a bare field, its selector body in braces otherwise.
pub open spec fn spec_subquery_of_type(env: Seq<(String, Query)>, ty: TypeRef, fuel: nat) -> Result<
    Seq<char>,
    RenderError,
>
    decreases fuel,
{
    if fuel == 0 {
        Err(RenderError::OutOfFuel)
    } else {
        match spec_kind_of_type(env, ty, (fuel - 1) as nat) {
            Ok(k) => match spec_selector_of_type(env, ty, (fuel - 1) as nat) {
                Ok(s) => Ok(subquery_text(k, s)),
                Err(e) => Err(e),
            },
            Err(e) => Err(e),
        }
    }
}

/// The whole query text: the `with` preamble (parameter casts, then
/// with-bindings) when any of either exist, the result clause, and the
/// selector body in braces.
pub open spec fn spec_format_query(
    env: Seq<(String, Query)>,
    q: Query,
    args: Seq<(Seq<char>, Seq<char>)>,
    fuel: nat,
) -> Result<Seq<char>, RenderError>
    decreases fuel,
{
    if fuel == 0 {
        Err(RenderError::OutOfFuel)
    } else {
        let pre: Result<Seq<char>, RenderError> = if q.params.0@.len() + q.withs@.len() > 0 {
            match spec_params_text(q.params.0@, args) {
                Ok(pt) => match spec_withs_text(env, q.withs@, (fuel - 1) as nat) {
                    Ok(wt) => Ok("with\n"@ + pt + wt),
                    Err(e) => Err(e),
                },
                Err(e) => Err(e),
            }
        } else {
            Ok(Seq::empty())
        };
        match pre {
            Ok(pt) => {
                let fs: Result<Seq<char>, RenderError> = match q.result {
                    QuerySelector::Selector(what, _) => Ok("select ("@ + what@ + ")"@),
                    QuerySelector::Object(_) => Ok("select"@),
                    QuerySelector::Direct(v, _) => match spec_render_var(
                        env,
                        v,
                        (fuel - 1) as nat,
                    ) {
                        Ok(t) => Ok("select ("@ + t + ")"@),
                        Err(e) => Err(e),
                    },
                };
                match fs {
                    Ok(f) => match spec_selector_body(env, q.result, (fuel - 1) as nat) {
                        Ok(body) => Ok(pt + f + " {\n"@ + body + "\n}"@),
                        Err(e) => Err(e),
                    },
                    Err(e) => Err(e),
                }
            },
            Err(e) => Err(e),
        }
    }
}

/// The standard argument map of a stand-alone render: each parameter bound
/// to its positional placeholder `$i`.
pub open spec fn spec_std_args(params: Seq<(String, TypeRef)>) -> Seq<(Seq<char>, Seq<char>)> {
    Seq::new(params.len(), |i: int| (params[i].0@, seq!['$'] + spec_decimal(i as nat)))
}

/// The text of a stand-alone query: its own parameters bound positionally.
pub open spec fn spec_query_text(env: Seq<(String, Query)>, q: Query, fuel: nat) -> Result<
    Seq<char>,
    RenderError,
> {
    spec_format_query(env, q, spec_std_args(q.params.0@), fuel)
}


/// Renders one query-variable expression.
pub fn render_var(env: &QueryEnv, v: &QueryVar, fuel: u64) -> (r: Result<String, RenderError>)
    ensures
        (match r {
            Ok(s) => spec_render_var(env.entries@, *v, fuel as nat) == Ok::<Seq<char>, RenderError>(
                s@,
            ),
            Err(e) => spec_render_var(env.entries@, *v, fuel as nat) == Err::<
                Seq<char>,
                RenderError,
            >(e),
        }),
    decreases fuel,
{
    if fuel == 0 {
        return Err(RenderError::OutOfFuel);
    }
    match v {
        QueryVar::Var(s) => Ok(s.clone()),
        QueryVar::Call(target, bindings) => {
            let rres = render_bindings_from(env, bindings, 0, fuel - 1);
            proof {
                assert(bindings@.skip(0) =~= bindings@);
            }
            let rargs = match rres {
                Ok(a) => a,
                Err(e) => {
                    return Err(e);
                },
            };
            let q = match env_lookup(env, target.as_str()) {
                Some(q) => q,
                None => {
                    return Err(RenderError::UnknownTarget);
                },
            };
            let t = match format_query(env, q, &rargs, fuel - 1) {
                Ok(t) => t,
                Err(e) => {
                    return Err(e);
                },
            };
            Ok(query_add_indent(t.as_str()))
        },
    }
}

/// Renders a call's bindings, from index `i` on, into the argument map the
/// target receives.
fn render_bindings_from(env: &QueryEnv, bs: &Vec<(String, QueryVar)>, i: usize, fuel: u64) -> (r:
    Result<Vec<(String, String)>, RenderError>)
    requires
        i <= bs@.len(),
    ensures
        (match r {
            Ok(out) => spec_render_bindings(env.entries@, bs@.skip(i as int), fuel as nat) == Ok::<
                Seq<(Seq<char>, Seq<char>)>,
                RenderError,
            >(args_view(out@)),
            Err(e) => spec_render_bindings(env.entries@, bs@.skip(i as int), fuel as nat) == Err::<
                Seq<(Seq<char>, Seq<char>)>,
                RenderError,
            >(e),
        }),
    decreases fuel,
{
    if fuel == 0 {
        return Err(RenderError::OutOfFuel);
    }
    if i == bs.len() {
        let out: Vec<(String, String)> = Vec::new();
        proof {
            assert(bs@.skip(i as int).len() == 0);
            assert(args_view(out@) =~= Seq::<(Seq<char>, Seq<char>)>::empty());
        }
        return Ok(out);
    }
    proof {
        assert(bs@.skip(i as int)[0] == bs@[i as int]);
        assert(bs@.skip(i as int).skip(1) =~= bs@.skip(i + 1));
    }
    let t = match render_var(env, &bs[i].1, fuel - 1) {
        Ok(t) => t,
        Err(e) => {
            return Err(e);
        },
    };
    let mut rest = match render_bindings_from(env, bs, i + 1, fuel - 1) {
        Ok(r) => r,
        Err(e) => {
            return Err(e);
        },
    };
    let ghost rest0 = rest@;
    let mut txt = String::from_str("(");
    txt.append(t.as_str());
    txt.append(")");
    let mut out: Vec<(String, String)> = Vec::new();
    out.push((bs[i].0.clone(), txt));
    out.append(&mut rest);
    proof {
        assert(args_view(out@) =~= seq![(bs@[i as int].0@, "("@ + t@ + ")"@)] + args_view(rest0));
    }
    Ok(out)
}

/// Renders the parameter lines of the preamble, from index `i` on.
fn params_text_from(params: &Vec<(String, TypeRef)>, args: &Vec<(String, String)>, i: usize) -> (r:
    Result<String, RenderError>)
    requires
        i <= params@.len(),
    ensures
        (match r {
            Ok(s) => spec_params_text(params@.skip(i as int), args_view(args@)) == Ok::<
                Seq<char>,
                RenderError,
            >(s@),
            Err(e) => spec_params_text(params@.skip(i as int), args_view(args@)) == Err::<
                Seq<char>,
                RenderError,
            >(e),
        }),
    decreases params@.len() - i,
{
    if i == params.len() {
        proof {
            assert(params@.skip(i as int).len() == 0);
        }
        return Ok(String::new());
    }
    proof {
        assert(params@.skip(i as int)[0] == params@[i as int]);
        assert(params@.skip(i as int).skip(1) =~= params@.skip(i + 1));
    }
    let cast = match type_cast(&params[i].1) {
        Some(c) => c,
        None => {
            return Err(RenderError::UnsupportedParamType);
        },
    };
    let at = match args_lookup(args, params[i].0.as_str()) {
        Some(a) => a.clone(),
        None => {
            return Err(RenderError::MissingArgument);
        },
    };
    let rest = match params_text_from(params, args, i + 1) {
        Ok(s) => s,
        Err(e) => {
            return Err(e);
        },
    };
    let mut out = String::new();
    out.append("\t");
    out.append(params[i].0.as_str());
    out.append(" := <");
    out.append(cast.as_str());
    out.append(">");
    out.append(at.as_str());
    out.append(",\n");
    out.append(rest.as_str());
    proof {
        assert(out@ =~= "\t"@ + params@[i as int].0@ + " := <"@ + cast@ + ">"@ + at@ + ",\n"@
            + rest@);
    }
    Ok(out)
}

/// Renders the with-binding lines of the preamble, from index `i` on.
fn withs_text_from(env: &QueryEnv, withs: &Vec<With>, i: usize, fuel: u64) -> (r: Result<
    String,
    RenderError,
>)
    requires
        i <= withs@.len(),
    ensures
        (match r {
            Ok(s) => spec_withs_text(env.entries@, withs@.skip(i as int), fuel as nat) == Ok::<
                Seq<char>,
                RenderError,
            >(s@),
            Err(e) => spec_withs_text(env.entries@, withs@.skip(i as int), fuel as nat) == Err::<
                Seq<char>,
                RenderError,
            >(e),
        }),
    decreases fuel,
{
    if fuel == 0 {
        return Err(RenderError::OutOfFuel);
    }
    if i == withs.len() {
        proof {
            assert(withs@.skip(i as int).len() == 0);
        }
        return Ok(String::new());
    }
    proof {
        assert(withs@.skip(i as int)[0] == withs@[i as int]);
        assert(withs@.skip(i as int).skip(1) =~= withs@.skip(i + 1));
    }
    let t = match render_var(env, &withs[i].1, fuel - 1) {
        Ok(t) => t,
        Err(e) => {
            return Err(e);
        },
    };
    let rest = match withs_text_from(env, withs, i + 1, fuel - 1) {
        Ok(s) => s,
        Err(e) => {
            return Err(e);
        },
    };
    let mut out = String::new();
    out.append("\t");
    out.append(withs[i].0.as_str());
    out.append(" := (");
    out.append(t.as_str());
    out.append("),\n");
    out.append(rest.as_str());
    proof {
        assert(out@ =~= "\t"@ + withs@[i as int].0@ + " := ("@ + t@ + "),\n"@ + rest@);
    }
    Ok(out)
}

/// Renders an explicit selector's field list, from index `i` on.
fn selector_items_from(
    env: &QueryEnv,
    items: &Vec<(String, SelectorValue)>,
    i: usize,
    fuel: u64,
) -> (r: Result<String, RenderError>)
    requires
        i <= items@.len(),
    ensures
        (match r {
            Ok(s) => spec_selector_items_text(env.entries@, items@.skip(i as int), fuel as nat)
                == Ok::<Seq<char>, RenderError>(s@),
            Err(e) => spec_selector_items_text(env.entries@, items@.skip(i as int), fuel as nat)
                == Err::<Seq<char>, RenderError>(e),
        }),
    decreases fuel,
{
    if fuel == 0 {
        return Err(RenderError::OutOfFuel);
    }
    if i == items.len() {
        proof {
            assert(items@.skip(i as int).len() == 0);
        }
        return Ok(String::new());
    }
    proof {
        assert(items@.skip(i as int)[0] == items@[i as int]);
        assert(items@.skip(i as int).skip(1) =~= items@.skip(i + 1));
    }
    let mut item0 = String::new();
    item0.append(items[i].0.as_str());
    match &items[i].1 {
        SelectorValue::SubSelector(ty) => {
            let t = match subquery_of_type(env, ty, fuel - 1) {
                Ok(t) => t,
                Err(e) => {
                    return Err(e);
                },
            };
            let ind = query_add_indent(t.as_str());
            item0.append(ind.as_str());
            proof {
                assert(item0@ =~= items@[i as int].0@ + spec_add_indent(t@));
            }
        },
        SelectorValue::Computed(v) => {
            let t = match render_var(env, v, fuel - 1) {
                Ok(t) => t,
                Err(e) => {
                    return Err(e);
                },
            };
            item0.append(" := (");
            item0.append(t.as_str());
            item0.append(")");
            proof {
                assert(item0@ =~= items@[i as int].0@ + " := ("@ + t@ + ")"@);
            }
        },
    }
    if i + 1 == items.len() {
        proof {
            assert(items@.skip(i as int).len() == 1);
        }
        return Ok(item0);
    }
    let rest = match selector_items_from(env, items, i + 1, fuel - 1) {
        Ok(s) => s,
        Err(e) => {
            return Err(e);
        },
    };
    let ghost item0v = item0@;
    let mut out = item0;
    out.append(",\n\t");
    out.append(rest.as_str());
    proof {
        assert(items@.skip(i as int).len() != 1);
        assert(out@ =~= item0v + ",\n\t"@ + rest@);
    }
    Ok(out)
}

/// Renders a free-object selector's field list, from index `i` on.
fn object_items_from(env: &QueryEnv, items: &Vec<(String, QueryVar)>, i: usize, fuel: u64) -> (r:
    Result<String, RenderError>)
    requires
        i <= items@.len(),
    ensures
        (match r {
            Ok(s) => spec_object_items_text(env.entries@, items@.skip(i as int), fuel as nat)
                == Ok::<Seq<char>, RenderError>(s@),
            Err(e) => spec_object_items_text(env.entries@, items@.skip(i as int), fuel as nat)
                == Err::<Seq<char>, RenderError>(e),
        }),
    decreases fuel,
{
    if fuel == 0 {
        return Err(RenderError::OutOfFuel);
    }
    if i == items.len() {
        proof {
            assert(items@.skip(i as int).len() == 0);
        }
        return Ok(String::new());
    }
    proof {
        assert(items@.skip(i as int)[0] == items@[i as int]);
        assert(items@.skip(i as int).skip(1) =~= items@.skip(i + 1));
    }
    let t = match render_var(env, &items[i].1, fuel - 1) {
        Ok(t) => t,
        Err(e) => {
            return Err(e);
        },
    };
    let mut line = String::new();
    line.append("\t");
    line.append(items[i].0.as_str());
    line.append(" := (");
    line.append(t.as_str());
    line.append("),");
    proof {
        assert(line@ =~= "\t"@ + items@[i as int].0@ + " := ("@ + t@ + "),"@);
    }
    if i + 1 == items.len() {
        proof {
            assert(items@.skip(i as int).len() == 1);
        }
        return Ok(line);
    }
    let rest = match object_items_from(env, items, i + 1, fuel - 1) {
        Ok(s) => s,
        Err(e) => {
            return Err(e);
        },
    };
    let ghost linev = line@;
    let mut out = line;
    out.append("\n");
    out.append(rest.as_str());
    proof {
        assert(items@.skip(i as int).len() != 1);
        assert(out@ =~= linev + "\n"@ + rest@);
    }
    Ok(out)
}

/// Renders the selector body of a result clause.
pub fn selector_body(env: &QueryEnv, sel: &QuerySelector, fuel: u64) -> (r: Result<
    String,
    RenderError,
>)
    ensures
        (match r {
            Ok(s) => spec_selector_body(env.entries@, *sel, fuel as nat) == Ok::<
                Seq<char>,
                RenderError,
            >(s@),
            Err(e) => spec_selector_body(env.entries@, *sel, fuel as nat) == Err::<
                Seq<char>,
                RenderError,
            >(e),
        }),
    decreases fuel,
{
    if fuel == 0 {
        return Err(RenderError::OutOfFuel);
    }
    match sel {
        QuerySelector::Selector(_, items) => {
            let ires = selector_items_from(env, items, 0, fuel - 1);
            proof {
                assert(items@.skip(0) =~= items@);
            }
            let t = match ires {
                Ok(t) => t,
                Err(e) => {
                    return Err(e);
                },
            };
            let mut out = String::new();
            out.append("\t");
            out.append(t.as_str());
            proof {
                assert(out@ =~= "\t"@ + t@);
            }
            Ok(out)
        },
        QuerySelector::Object(items) => {
            let ires = object_items_from(env, items, 0, fuel - 1);
            proof {
                assert(items@.skip(0) =~= items@);
            }
            ires
        },
        QuerySelector::Direct(_, ty) => selector_of_type(env, ty, fuel - 1),
    }
}

/// Renders the selector body a member type contributes.
pub fn selector_of_type(env: &QueryEnv, ty: &TypeRef, fuel: u64) -> (r: Result<
    String,
    RenderError,
>)
    ensures
        (match r {
            Ok(s) => spec_selector_of_type(env.entries@, *ty, fuel as nat) == Ok::<
                Seq<char>,
                RenderError,
            >(s@),
            Err(e) => spec_selector_of_type(env.entries@, *ty, fuel as nat) == Err::<
                Seq<char>,
                RenderError,
            >(e),
        }),
    decreases fuel,
{
    if fuel == 0 {
        return Err(RenderError::OutOfFuel);
    }
    match ty {
        TypeRef::Scalar(_) => Ok(String::new()),
        TypeRef::Unit => Ok(String::new()),
        TypeRef::Optional(inner) => selector_of_type(env, inner, fuel - 1),
        TypeRef::List(inner) => selector_of_type(env, inner, fuel - 1),
        TypeRef::NonEmptyList(inner) => selector_of_type(env, inner, fuel - 1),
        TypeRef::RefTo(inner) => {
            let t = match selector_of_type(env, inner, fuel - 1) {
                Ok(t) => t,
                Err(e) => {
                    return Err(e);
                },
            };
            let mut out = String::new();
            out.append("\tid,\n");
            out.append(t.as_str());
            proof {
                assert(out@ =~= "\tid,\n"@ + t@);
            }
            Ok(out)
        },
        TypeRef::Named(n) => match env_lookup(env, n.as_str()) {
            Some(q) => selector_body(env, &q.result, fuel - 1),
            None => Err(RenderError::UnknownTarget),
        },
    }
}

/// The result kind a member type renders as.
pub fn kind_of_type(env: &QueryEnv, ty: &TypeRef, fuel: u64) -> (r: Result<
    ComposableQueryResultKind,
    RenderError,
>)
    ensures
        (match r {
            Ok(k) => spec_kind_of_type(env.entries@, *ty, fuel as nat) == Ok::<
                ComposableQueryResultKind,
                RenderError,
            >(k),
            Err(e) => spec_kind_of_type(env.entries@, *ty, fuel as nat) == Err::<
                ComposableQueryResultKind,
                RenderError,
            >(e),
        }),
    decreases fuel,
{
    if fuel == 0 {
        return Err(RenderError::OutOfFuel);
    }
    match ty {
        TypeRef::Scalar(_) => Ok(ComposableQueryResultKind::Field),
        TypeRef::Unit => Ok(ComposableQueryResultKind::Field),
        TypeRef::Optional(inner) => kind_of_type(env, inner, fuel - 1),
        TypeRef::List(inner) => kind_of_type(env, inner, fuel - 1),
        TypeRef::NonEmptyList(inner) => kind_of_type(env, inner, fuel - 1),
        TypeRef::RefTo(_) => Ok(ComposableQueryResultKind::Selector),
        TypeRef::Named(n) => match env_lookup(env, n.as_str()) {
            Some(q) => Ok(q.result.as_composable_query_result_type()),
            None => Err(RenderError::UnknownTarget),
        },
    }
}

/// Renders a member type as an embedded sub-query field.
pub fn subquery_of_type(env: &QueryEnv, ty: &TypeRef, fuel: u64) -> (r: Result<
    String,
    RenderError,
>)
    ensures
        (match r {
            Ok(s) => spec_subquery_of_type(env.entries@, *ty, fuel as nat) == Ok::<
                Seq<char>,
                RenderError,
            >(s@),
            Err(e) => spec_subquery_of_type(env.entries@, *ty, fuel as nat) == Err::<
                Seq<char>,
                RenderError,
            >(e),
        }),
    decreases fuel,
{
    if fuel == 0 {
        return Err(RenderError::OutOfFuel);
    }
    let k = match kind_of_type(env, ty, fuel - 1) {
        Ok(k) => k,
        Err(e) => {
            return Err(e);
        },
    };
    let sel = match selector_of_type(env, ty, fuel - 1) {
        Ok(s) => s,
        Err(e) => {
            return Err(e);
        },
    };
    match k {
        ComposableQueryResultKind::Field => {
            let out = String::new();
            proof {
                assert(out@ =~= subquery_text(k, sel@));
            }
            Ok(out)
        },
        ComposableQueryResultKind::Selector => {
            let mut out = String::new();
            out.append(": {\n");
            out.append(sel.as_str());
            out.append("\n}");
            proof {
                assert(out@ =~= ": {\n"@ + sel@ + "\n}"@);
            }
            Ok(out)
        },
        ComposableQueryResultKind::FreeObject => {
            let mut out = String::new();
            out.append(" := {\n");
            out.append(sel.as_str());
            out.append("\n}");
            proof {
                assert(out@ =~= " := {\n"@ + sel@ + "\n}"@);
            }
            Ok(out)
        },
    }
}

/// Renders a whole query against an argument map: preamble, result clause,
/// and selector body.
pub fn format_query(env: &QueryEnv, q: &Query, args: &Vec<(String, String)>, fuel: u64) -> (r:
    Result<String, RenderError>)
    ensures
        (match r {
            Ok(s) => spec_format_query(env.entries@, *q, args_view(args@), fuel as nat) == Ok::<
                Seq<char>,
                RenderError,
            >(s@),
            Err(e) => spec_format_query(env.entries@, *q, args_view(args@), fuel as nat) == Err::<
                Seq<char>,
                RenderError,
            >(e),
        }),
    decreases fuel,
{
    if fuel == 0 {
        return Err(RenderError::OutOfFuel);
    }
    let mut pre = String::new();
    if q.params.0.len() > 0 || q.withs.len() > 0 {
        let pres = params_text_from(&q.params.0, args, 0);
        proof {
            assert(q.params.0@.skip(0) =~= q.params.0@);
        }
        let pt = match pres {
            Ok(s) => s,
            Err(e) => {
                return Err(e);
            },
        };
        let wres = withs_text_from(env, &q.withs, 0, fuel - 1);
        proof {
            assert(q.withs@.skip(0) =~= q.withs@);
        }
        let wt = match wres {
            Ok(s) => s,
            Err(e) => {
                return Err(e);
            },
        };
        pre.append("with\n");
        pre.append(pt.as_str());
        pre.append(wt.as_str());
        proof {
            assert(pre@ =~= "with\n"@ + pt@ + wt@);
        }
    }
    let fs: String = match &q.result {
        QuerySelector::Selector(what, _) => {
            let mut f = String::new();
            f.append("select (");
            f.append(what.as_str());
            f.append(")");
            proof {
                assert(f@ =~= "select ("@ + what@ + ")"@);
            }
            f
        },
        QuerySelector::Object(_) => String::from_str("select"),
        QuerySelector::Direct(v, _) => {
            let t = match render_var(env, v, fuel - 1) {
                Ok(t) => t,
                Err(e) => {
                    return Err(e);
                },
            };
            let mut f = String::new();
            f.append("select (");
            f.append(t.as_str());
            f.append(")");
            proof {
                assert(f@ =~= "select ("@ + t@ + ")"@);
            }
            f
        },
    };
    let body = match selector_body(env, &q.result, fuel - 1) {
        Ok(b) => b,
        Err(e) => {
            return Err(e);
        },
    };
    let ghost prev = pre@;
    let mut out = pre;
    out.append(fs.as_str());
    out.append(" {\n");
    out.append(body.as_str());
    out.append("\n}");
    proof {
        assert(out@ =~= prev + fs@ + " {\n"@ + body@ + "\n}"@);
    }
    Ok(out)
}

/// Renders a stand-alone query: every declared parameter is bound to its
/// positional placeholder (`$0`, `$1`, ...), in declaration order. Rendering
/// is a pure function of the query and the environment: two renders of the
/// same query yield byte-identical text.
#[verifier::loop_isolation(false)]
pub fn query_text(env: &QueryEnv, q: &Query, fuel: u64) -> (r: Result<String, RenderError>)
    ensures
        (match r {
            Ok(s) => spec_query_text(env.entries@, *q, fuel as nat) == Ok::<Seq<char>, RenderError>(
                s@,
            ),
            Err(e) => spec_query_text(env.entries@, *q, fuel as nat) == Err::<
                Seq<char>,
                RenderError,
            >(e),
        }),
{
    let n = q.params.0.len();
    let mut args: Vec<(String, String)> = Vec::new();
    let mut i: usize = 0;
    while i < n
        invariant
            0 <= i <= n,
            n == q.params.0@.len(),
            args@.len() == i,
            forall|j: int|
                0 <= j < i ==> (#[trigger] args_view(args@)[j]).0 == spec_std_args(
                    q.params.0@,
                )[j].0 && args_view(args@)[j].1 == spec_std_args(q.params.0@)[j].1,
        decreases n - i,
    {
        let name = q.params.0[i].0.clone();
        let mut ph = String::from_str("$");
        push_decimal(i, &mut ph);
        proof {
            reveal_strlit("$");
            assert("$"@ =~= seq!['$']);
            assert(ph@ =~= seq!['$'] + spec_decimal(i as nat));
        }
        let ghost prev_args = args@;
        args.push((name, ph));
        proof {
            assert(args@[i as int].0 == q.params.0@[i as int].0);
            assert(args@[i as int].1@ == seq!['$'] + spec_decimal(i as nat));
            assert(args_view(args@)[i as int].0 == spec_std_args(q.params.0@)[i as int].0);
            assert(args_view(args@)[i as int].1 == spec_std_args(q.params.0@)[i as int].1);
            assert forall|j: int| 0 <= j < i implies (#[trigger] args_view(args@)[j]).0
                == spec_std_args(q.params.0@)[j].0 && args_view(args@)[j].1 == spec_std_args(
                q.params.0@,
            )[j].1 by {
                assert(args@[j] == prev_args[j]);
                assert(args_view(prev_args)[j].0 == spec_std_args(q.params.0@)[j].0);
                assert(args_view(prev_args)[j].1 == spec_std_args(q.params.0@)[j].1);
            }
        }
        i += 1;
    }
    proof {
        assert(args_view(args@) =~~= spec_std_args(q.params.0@));
    }
    format_query(env, q, &args, fuel)
}


/// Determinism: the rendering specification is a function, so two renders of
/// the same query against the same environment yield byte-identical text —
/// and [`query_text`] returns exactly that text.
pub proof fn lemma_render_deterministic(
    env: Seq<(String, Query)>,
    q: Query,
    fuel: nat,
    s1: Seq<char>,
    s2: Seq<char>,
)
    requires
        spec_query_text(env, q, fuel) == Ok::<Seq<char>, RenderError>(s1),
        spec_query_text(env, q, fuel) == Ok::<Seq<char>, RenderError>(s2),
    ensures
        s1 == s2,
{
}

/// Composition: a call embeds the named target's fully rendered query text,
/// re-indented by one tab stop; the argument map it receives holds each
/// binding's rendered, parenthesized text.
pub proof fn lemma_composition_embeds(
    env: Seq<(String, Query)>,
    target: String,
    bindings: Vec<(String, QueryVar)>,
    fuel: nat,
    inner_q: Query,
    rargs: Seq<(Seq<char>, Seq<char>)>,
    t: Seq<char>,
)
    requires
        fuel >= 1,
        spec_env_lookup(env, target@) == Some(inner_q),
        spec_render_bindings(env, bindings@, (fuel - 1) as nat) == Ok::<
            Seq<(Seq<char>, Seq<char>)>,
            RenderError,
        >(rargs),
        spec_format_query(env, inner_q, rargs, (fuel - 1) as nat) == Ok::<Seq<char>, RenderError>(
            t,
        ),
    ensures
        spec_render_var(env, QueryVar::Call(target, bindings), fuel) == Ok::<
            Seq<char>,
            RenderError,
        >(spec_add_indent(t)),
{
}

/// Composition: a with-binding whose expression renders to `vt` contributes
/// exactly the line `\tname := (vt),\n` to the query preamble.
pub proof fn lemma_with_line(
    env: Seq<(String, Query)>,
    name: String,
    v: QueryVar,
    fuel: nat,
    vt: Seq<char>,
)
    requires
        fuel >= 2,
        spec_render_var(env, v, (fuel - 1) as nat) == Ok::<Seq<char>, RenderError>(vt),
    ensures
        spec_withs_text(env, seq![With(name, v)], fuel) == Ok::<Seq<char>, RenderError>(
            "\t"@ + name@ + " := ("@ + vt + "),\n"@,
        ),
{
    let ws = seq![With(name, v)];
    assert(ws.skip(1).len() == 0);
    assert(spec_withs_text(env, ws.skip(1), (fuel - 1) as nat) == Ok::<Seq<char>, RenderError>(
        Seq::<char>::empty(),
    ));
    assert(("\t"@ + name@ + " := ("@ + vt + "),\n"@) + Seq::<char>::empty() =~= "\t"@ + name@
        + " := ("@ + vt + "),\n"@);
}

} // verus!
