use composable_query::query_ir::{
    Params, Query, QuerySelector, QueryVar, ScalarKind, SelectorValue, TypeRef, With,
};
use composable_query::composable::{ComposableQueryResultKind, EdgedbComposableSelector};
use composable_query::refs::Ref;
use composable_query::render::{
    format_query, push_decimal, query_add_indent, query_text, selector_body, type_cast,
    QueryEnv, RenderError,
};
use composable_query::shapes::Inner;

const FUEL: u64 = 64;

fn var(s: &str) -> QueryVar {
    QueryVar::Var(s.to_string())
}

fn inner_selector_query() -> Query {
    Query {
        params: Params(vec![]),
        withs: vec![],
        result: QuerySelector::Object(vec![
            ("req".to_string(), var("req")),
            ("opt".to_string(), var("opt")),
        ]),
    }
}

fn env_with_inner_selector() -> QueryEnv {
    QueryEnv { entries: vec![("InnerSelector".to_string(), inner_selector_query())] }
}

#[test]
fn query_add_indent_inserts_tabs() {
    assert_eq!(query_add_indent("a\nb\nc"), "a\n\tb\n\tc".to_string());
    assert_eq!(query_add_indent(""), "".to_string());
    assert_eq!(query_add_indent("\n"), "\n\t".to_string());
}

#[test]
fn decimal_rendering() {
    let mut s = String::new();
    push_decimal(0, &mut s);
    assert_eq!(s, "0");
    let mut s = String::new();
    push_decimal(123, &mut s);
    assert_eq!(s, "123");
    let mut s = String::new();
    push_decimal(1000, &mut s);
    assert_eq!(s, "1000");
}

#[test]
fn type_casts() {
    assert_eq!(
        type_cast(&TypeRef::Scalar(ScalarKind::Int32)),
        Some("int32".to_string())
    );
    assert_eq!(
        type_cast(&TypeRef::Optional(Box::new(TypeRef::Scalar(ScalarKind::Str)))),
        Some("optional str".to_string())
    );
    assert_eq!(type_cast(&TypeRef::Named("Inner".to_string())), None);
    assert_eq!(
        type_cast(&TypeRef::Optional(Box::new(TypeRef::Optional(Box::new(TypeRef::Scalar(
            ScalarKind::Str
        )))))),
        None
    );
}

#[test]
fn object_default_renders_each_field_as_its_own_name() {
    let env = QueryEnv { entries: vec![] };
    let q = Query {
        params: Params(vec![]),
        withs: vec![],
        result: QuerySelector::Object(vec![
            ("x".to_string(), var("x")),
            ("y".to_string(), var("y")),
        ]),
    };
    assert_eq!(
        query_text(&env, &q, FUEL).unwrap(),
        "select {\n\tx := (x),\n\ty := (y),\n}".to_string()
    );
}

#[test]
fn rendering_is_deterministic() {
    let env = env_with_inner_selector();
    let q = Query {
        params: Params(vec![("id".to_string(), TypeRef::Scalar(ScalarKind::Uuid))]),
        withs: vec![With("_selector".to_string(), var("select Inner filter .id = id"))],
        result: QuerySelector::Direct(
            var("_selector"),
            TypeRef::Named("InnerSelector".to_string()),
        ),
    };
    let first = query_text(&env, &q, FUEL).unwrap();
    let second = query_text(&env, &q, FUEL).unwrap();
    assert_eq!(first.as_bytes(), second.as_bytes());
}

#[test]
fn wrapper_renders_selector_binding_and_nested_body() {
    let env = env_with_inner_selector();
    let q = Query {
        params: Params(vec![]),
        withs: vec![With("_selector".to_string(), var("select Inner limit 1"))],
        result: QuerySelector::Direct(
            var("_selector"),
            TypeRef::Named("InnerSelector".to_string()),
        ),
    };
    let text = query_text(&env, &q, FUEL).unwrap();
    assert_eq!(
        text,
        "with\n\t_selector := (select Inner limit 1),\nselect (_selector) {\n\treq := (req),\n\topt := (opt),\n}"
            .to_string()
    );
    assert!(text.contains("select Inner limit 1"));
}

#[test]
fn composition_embeds_indented_parenthesized_subquery() {
    let inner = Query {
        params: Params(vec![("x".to_string(), TypeRef::Scalar(ScalarKind::Str))]),
        withs: vec![],
        result: QuerySelector::Object(vec![("a".to_string(), var("x"))]),
    };
    let env = QueryEnv { entries: vec![("Inner".to_string(), inner)] };
    let outer = Query {
        params: Params(vec![]),
        withs: vec![With(
            "q".to_string(),
            QueryVar::Call("Inner".to_string(), vec![("x".to_string(), var("1"))]),
        )],
        result: QuerySelector::Object(vec![("b".to_string(), var("b"))]),
    };
    let text = query_text(&env, &outer, FUEL).unwrap();
    let embedded = "with\n\t\tx := <str>(1),\n\tselect {\n\t\ta := (x),\n\t}";
    assert_eq!(
        text,
        format!("with\n\tq := ({embedded}),\nselect {{\n\tb := (b),\n}}")
    );
    // the embedded copy is Inner's own render, re-indented by one tab stop
    let inner_args = vec![("x".to_string(), "(1)".to_string())];
    let inner_text =
        format_query(&env, &env.entries[0].1, &inner_args, FUEL).unwrap();
    assert_eq!(query_add_indent(&inner_text), embedded.to_string());
}

#[test]
fn empty_struct_direct_render() {
    let env = QueryEnv { entries: vec![] };
    let q = Query {
        params: Params(vec![("n".to_string(), TypeRef::Scalar(ScalarKind::Int32))]),
        withs: vec![],
        result: QuerySelector::Direct(var("select User limit 1"), TypeRef::Unit),
    };
    assert_eq!(
        query_text(&env, &q, FUEL).unwrap(),
        "with\n\tn := <int32>$0,\nselect (select User limit 1) {\n\n}".to_string()
    );
}

#[test]
fn render_error_out_of_fuel() {
    let env = QueryEnv { entries: vec![] };
    let q = Query {
        params: Params(vec![]),
        withs: vec![],
        result: QuerySelector::Object(vec![]),
    };
    assert_eq!(query_text(&env, &q, 0).unwrap_err(), RenderError::OutOfFuel);
}

#[test]
fn render_error_missing_argument() {
    let env = QueryEnv { entries: vec![] };
    let q = Query {
        params: Params(vec![("n".to_string(), TypeRef::Scalar(ScalarKind::Int32))]),
        withs: vec![],
        result: QuerySelector::Object(vec![]),
    };
    let no_args: Vec<(String, String)> = vec![];
    assert_eq!(
        format_query(&env, &q, &no_args, FUEL).unwrap_err(),
        RenderError::MissingArgument
    );
}

#[test]
fn render_error_unsupported_param_type() {
    let env = QueryEnv { entries: vec![] };
    let q = Query {
        params: Params(vec![("n".to_string(), TypeRef::Named("X".to_string()))]),
        withs: vec![],
        result: QuerySelector::Object(vec![]),
    };
    assert_eq!(
        query_text(&env, &q, FUEL).unwrap_err(),
        RenderError::UnsupportedParamType
    );
}

#[test]
fn render_error_unknown_target() {
    let env = QueryEnv { entries: vec![] };
    let q = Query {
        params: Params(vec![]),
        withs: vec![With("q".to_string(), QueryVar::Call("Nope".to_string(), vec![]))],
        result: QuerySelector::Object(vec![]),
    };
    assert_eq!(
        query_text(&env, &q, FUEL).unwrap_err(),
        RenderError::UnknownTarget
    );
}

#[test]
fn query_tests() {
    let env = env_with_inner_selector();

    // a query with its own named fields and an explicit selector source
    let inner_query = Query {
        params: Params(vec![]),
        withs: vec![With("_selector".to_string(), var("select Inner limit 1"))],
        result: QuerySelector::Selector(
            "_selector".to_string(),
            vec![
                (
                    "req".to_string(),
                    SelectorValue::SubSelector(TypeRef::Scalar(ScalarKind::Str)),
                ),
                (
                    "opt".to_string(),
                    SelectorValue::SubSelector(TypeRef::Optional(Box::new(TypeRef::Scalar(
                        ScalarKind::Str,
                    )))),
                ),
            ],
        ),
    };
    assert_eq!(
        query_text(&env, &inner_query, FUEL).unwrap(),
        "with\n\t_selector := (select Inner limit 1),\nselect (_selector) {\n\treq,\n\topt\n}"
    );

    // a query embedding another structure's selector as a field
    let outer_query = Query {
        params: Params(vec![]),
        withs: vec![With("_selector".to_string(), var("select Outer limit 1"))],
        result: QuerySelector::Selector(
            "_selector".to_string(),
            vec![
                (
                    "inner".to_string(),
                    SelectorValue::SubSelector(TypeRef::Optional(Box::new(TypeRef::Named(
                        "InnerSelector".to_string(),
                    )))),
                ),
                (
                    "some_field".to_string(),
                    SelectorValue::SubSelector(TypeRef::Optional(Box::new(TypeRef::Scalar(
                        ScalarKind::Str,
                    )))),
                ),
                (
                    "other_field".to_string(),
                    SelectorValue::SubSelector(TypeRef::Scalar(ScalarKind::Str)),
                ),
            ],
        ),
    };
    assert_eq!(
        query_text(&env, &outer_query, FUEL).unwrap(),
        "with\n\t_selector := (select Outer limit 1),\nselect (_selector) {\n\tinner: {\n\t\treq := (req),\n\t\topt := (opt),\n\t},\n\tsome_field,\n\tother_field\n}"
    );

    // the same, but through a reference: the id is fetched too
    let outer_query_with_ref = Query {
        params: Params(vec![]),
        withs: vec![With("_selector".to_string(), var("select Outer limit 1"))],
        result: QuerySelector::Selector(
            "_selector".to_string(),
            vec![
                (
                    "inner".to_string(),
                    SelectorValue::SubSelector(TypeRef::Optional(Box::new(TypeRef::RefTo(
                        Box::new(TypeRef::Named("InnerSelector".to_string())),
                    )))),
                ),
                (
                    "some_field".to_string(),
                    SelectorValue::SubSelector(TypeRef::Optional(Box::new(TypeRef::Scalar(
                        ScalarKind::Str,
                    )))),
                ),
                (
                    "other_field".to_string(),
                    SelectorValue::SubSelector(TypeRef::Scalar(ScalarKind::Str)),
                ),
            ],
        ),
    };
    assert_eq!(
        query_text(&env, &outer_query_with_ref, FUEL).unwrap(),
        "with\n\t_selector := (select Outer limit 1),\nselect (_selector) {\n\tinner: {\n\t\tid,\n\t\treq := (req),\n\t\topt := (opt),\n\t},\n\tsome_field,\n\tother_field\n}"
    );

    // a wrapper around another structure's selector
    let one_inner_by_selector = Query {
        params: Params(vec![]),
        withs: vec![With("_selector".to_string(), var("select Inner limit 1"))],
        result: QuerySelector::Direct(
            var("_selector"),
            TypeRef::Named("InnerSelector".to_string()),
        ),
    };
    assert_eq!(
        query_text(&env, &one_inner_by_selector, FUEL).unwrap(),
        "with\n\t_selector := (select Inner limit 1),\nselect (_selector) {\n\treq := (req),\n\topt := (opt),\n}"
    );

    // a parameterized wrapper
    let one_inner_by_selector_by_id = Query {
        params: Params(vec![("id".to_string(), TypeRef::Scalar(ScalarKind::Uuid))]),
        withs: vec![With("_selector".to_string(), var("select Inner filter .id = id"))],
        result: QuerySelector::Direct(
            var("_selector"),
            TypeRef::Optional(Box::new(TypeRef::Named("InnerSelector".to_string()))),
        ),
    };
    assert_eq!(
        query_text(&env, &one_inner_by_selector_by_id, FUEL).unwrap(),
        "with\n\tid := <uuid>$0,\n\t_selector := (select Inner filter .id = id),\nselect (_selector) {\n\treq := (req),\n\topt := (opt),\n}"
    );

    // a wrapper around a sequence of selectors
    let many_inners_by_selector = Query {
        params: Params(vec![]),
        withs: vec![With("_selector".to_string(), var("select Inner limit 10"))],
        result: QuerySelector::Direct(
            var("_selector"),
            TypeRef::List(Box::new(TypeRef::Named("InnerSelector".to_string()))),
        ),
    };
    assert_eq!(
        query_text(&env, &many_inners_by_selector, FUEL).unwrap(),
        "with\n\t_selector := (select Inner limit 10),\nselect (_selector) {\n\treq := (req),\n\topt := (opt),\n}"
    );
}

#[test]
fn selector_tests() {

    let mut buf = String::new();
    Inner::format_selector(&mut buf);
    assert_eq!(buf, "\treq := (req),\n\topt := (opt),");

    let mut buf = String::new();
    <Option<Inner> as EdgedbComposableSelector>::format_selector(&mut buf);
    assert_eq!(buf, "\treq := (req),\n\topt := (opt),");
}

#[test]
fn subquery_embedding_by_kind() {

    // a primitive embeds as a bare field: nothing is appended
    let mut buf = String::new();
    <i64 as EdgedbComposableSelector>::format_subquery(&mut buf);
    assert_eq!(buf, "");
    assert_eq!(
        <i64 as EdgedbComposableSelector>::result_type(),
        ComposableQueryResultKind::Field
    );

    // a selector type embeds with its body in braces
    let mut buf = String::new();
    <Ref<Inner> as EdgedbComposableSelector>::format_subquery(&mut buf);
    assert_eq!(buf, ": {\n\tid,\n\treq := (req),\n\topt := (opt),\n}");
}

#[test]
fn selector_body_of_explicit_selector() {
    let env = QueryEnv { entries: vec![] };
    let sel = QuerySelector::Object(vec![
        ("id".to_string(), var("id")),
        ("strlen".to_string(), var("len(.req)")),
    ]);
    assert_eq!(
        selector_body(&env, &sel, FUEL).unwrap(),
        "\tid := (id),\n\tstrlen := (len(.req)),"
    );
}
