use composable_query::attrs::{
    AttrArg, AttrError, AttrExpr, ComposableQueryAttribute, ComposableQueryReturn, DirectContent,
    FieldInput, FieldsInput, ParamEntry, ParamPat, RawAttr, StructInput,
    derive_query, fields_input_is_wf,
};
use composable_query::query_ir::{
    Params, Query, QuerySelector, QueryVar, ScalarKind, SelectorValue, TypeRef, With,
};
use composable_query::render::{query_text, QueryEnv};
use composable_query::render::selector_body;
use composable_query::object::EdgedbObject;
use composable_query::shapes::Inner;
use composable_query::wire::WireValue;

const FUEL: u64 = 64;

fn s(x: &str) -> String {
    x.to_string()
}

fn var(x: &str) -> QueryVar {
    QueryVar::Var(s(x))
}

fn named_field(name: &str, ty: TypeRef) -> FieldInput {
    FieldInput { field_name: Some(s(name)), ty, var_attrs: vec![] }
}

fn named_field_var(name: &str, ty: TypeRef, e: AttrExpr) -> FieldInput {
    FieldInput { field_name: Some(s(name)), ty, var_attrs: vec![e] }
}

fn unnamed_field(ty: TypeRef) -> FieldInput {
    FieldInput { field_name: None, ty, var_attrs: vec![] }
}

fn params_attr(entries: Vec<(&str, TypeRef)>) -> RawAttr {
    RawAttr::Params(
        entries
            .into_iter()
            .map(|(n, ty)| ParamEntry::Typed(ParamPat::Ident(s(n)), ty))
            .collect(),
    )
}

fn select_attr(text: &str) -> RawAttr {
    RawAttr::Select(AttrExpr::StrLit(s(text)))
}

fn direct_attr(text: &str) -> RawAttr {
    RawAttr::Direct(DirectContent::Text(s(text)))
}

fn derive(attrs: Vec<RawAttr>, data: FieldsInput) -> Result<Query, Vec<AttrError>> {
    let input = StructInput { attrs, data };
    assert!(fields_input_is_wf(&input.data));
    derive_query(input)
}

fn inner_selector_query() -> Query {
    Query {
        params: Params(vec![]),
        withs: vec![],
        result: QuerySelector::Object(vec![(s("req"), var("req")), (s("opt"), var("opt"))]),
    }
}

#[test]
fn insta_test_struct() {
    let attrs = vec![
        params_attr(vec![
            ("n", TypeRef::Scalar(ScalarKind::Int32)),
            ("v", TypeRef::Scalar(ScalarKind::Str)),
        ]),
        RawAttr::With(vec![(
            s("q"),
            AttrExpr::CallExpr(
                vec![s("crate"), s("InsertQ2")],
                vec![
                    AttrArg::Named(vec![s("n")], AttrExpr::StrLit(s("a + 1"))),
                    AttrArg::Named(vec![s("v")], AttrExpr::StrLit(s("v"))),
                ],
            ),
        )]),
        select_attr("select Inner limit 1"),
    ];
    let data = FieldsInput::Struct(vec![
        named_field("id", TypeRef::Scalar(ScalarKind::Str)),
        named_field_var("calc", TypeRef::Scalar(ScalarKind::Int32), AttrExpr::StrLit(s("calc"))),
        named_field("by_name", TypeRef::Scalar(ScalarKind::Int32)),
    ]);
    let q = derive(attrs, data).unwrap();

    assert_eq!(
        q.params,
        Params(vec![
            (s("n"), TypeRef::Scalar(ScalarKind::Int32)),
            (s("v"), TypeRef::Scalar(ScalarKind::Str)),
        ])
    );
    assert_eq!(
        q.withs,
        vec![
            With(
                s("q"),
                QueryVar::Call(
                    s("crate::InsertQ2"),
                    vec![(s("n"), var("a + 1")), (s("v"), var("v"))],
                ),
            ),
            With(s("_selector"), var("select Inner limit 1")),
        ]
    );
    assert_eq!(
        q.result,
        QuerySelector::Selector(
            s("_selector"),
            vec![
                (s("id"), SelectorValue::SubSelector(TypeRef::Scalar(ScalarKind::Str))),
                (s("calc"), SelectorValue::Computed(var("calc"))),
                (s("by_name"), SelectorValue::SubSelector(TypeRef::Scalar(ScalarKind::Int32))),
            ],
        )
    );

    // the rendered text, with the call target registered
    let insert_q2 = Query {
        params: Params(vec![
            (s("n"), TypeRef::Scalar(ScalarKind::Str)),
            (s("v"), TypeRef::Scalar(ScalarKind::Str)),
        ]),
        withs: vec![],
        result: QuerySelector::Object(vec![(s("out"), var("n"))]),
    };
    let env = QueryEnv { entries: vec![(s("crate::InsertQ2"), insert_q2)] };
    assert_eq!(
        query_text(&env, &q, FUEL).unwrap(),
        "with\n\tn := <int32>$0,\n\tv := <str>$1,\n\tq := (with\n\t\tn := <str>(a + 1),\n\t\tv := <str>(v),\n\tselect {\n\t\tout := (n),\n\t}),\n\t_selector := (select Inner limit 1),\nselect (_selector) {\n\tid,\n\tcalc := (calc),\n\tby_name\n}"
    );
}

#[test]
fn insta_test_struct2() {
    let data = FieldsInput::Struct(vec![
        named_field("id", TypeRef::Scalar(ScalarKind::Uuid)),
        named_field("opt", TypeRef::Optional(Box::new(TypeRef::Scalar(ScalarKind::Str)))),
        named_field("req", TypeRef::Scalar(ScalarKind::Str)),
        named_field_var(
            "strlen",
            TypeRef::Scalar(ScalarKind::Int64),
            AttrExpr::StrLit(s("len(.req)")),
        ),
    ]);
    let q = derive(vec![], data).unwrap();
    assert_eq!(
        q.result,
        QuerySelector::Object(vec![
            (s("id"), var("id")),
            (s("opt"), var("opt")),
            (s("req"), var("req")),
            (s("strlen"), var("len(.req)")),
        ])
    );
    let env = QueryEnv { entries: vec![] };
    assert_eq!(
        query_text(&env, &q, FUEL).unwrap(),
        "select {\n\tid := (id),\n\topt := (opt),\n\treq := (req),\n\tstrlen := (len(.req)),\n}"
    );
}

#[test]
fn insta_test_struct_wrapper() {
    let attrs = vec![
        params_attr(vec![("id", TypeRef::Scalar(ScalarKind::Uuid))]),
        select_attr("select Inner filter .id = id limit 1"),
    ];
    let data = FieldsInput::Struct(vec![unnamed_field(TypeRef::Named(s("Inner")))]);
    let q = derive(attrs, data).unwrap();
    assert_eq!(
        q.withs,
        vec![With(s("_selector"), var("select Inner filter .id = id limit 1"))]
    );
    assert_eq!(
        q.result,
        QuerySelector::Direct(var("_selector"), TypeRef::Named(s("Inner")))
    );
    let env = QueryEnv { entries: vec![(s("Inner"), inner_selector_query())] };
    assert_eq!(
        query_text(&env, &q, FUEL).unwrap(),
        "with\n\tid := <uuid>$0,\n\t_selector := (select Inner filter .id = id limit 1),\nselect (_selector) {\n\treq := (req),\n\topt := (opt),\n}"
    );
}

#[test]
fn insta_test_empty_struct() {
    let attrs = vec![
        params_attr(vec![("n", TypeRef::Scalar(ScalarKind::Int32))]),
        direct_attr("select User limit 1"),
    ];
    let q = derive(attrs, FieldsInput::Struct(vec![])).unwrap();
    assert_eq!(
        q.result,
        QuerySelector::Direct(var("select User limit 1"), TypeRef::Unit)
    );
    let env = QueryEnv { entries: vec![] };
    assert_eq!(
        query_text(&env, &q, FUEL).unwrap(),
        "with\n\tn := <int32>$0,\nselect (select User limit 1) {\n\n}"
    );
}

#[test]
fn insta_simpl() {
    let attrs = vec![select_attr("select Inner limit 1")];
    let data = FieldsInput::Struct(vec![
        named_field("req", TypeRef::Scalar(ScalarKind::Str)),
        named_field("opt", TypeRef::Optional(Box::new(TypeRef::Scalar(ScalarKind::Str)))),
    ]);
    let q = derive(attrs, data).unwrap();
    let env = QueryEnv { entries: vec![] };
    assert_eq!(
        query_text(&env, &q, FUEL).unwrap(),
        "with\n\t_selector := (select Inner limit 1),\nselect (_selector) {\n\treq,\n\topt\n}"
    );
}

#[test]
fn insta_test_wrapper() {
    let attrs = vec![select_attr("select Inner limit 1")];
    let data = FieldsInput::Struct(vec![unnamed_field(TypeRef::Named(s("InnerSelector")))]);
    let q = derive(attrs, data).unwrap();
    let env = QueryEnv { entries: vec![(s("InnerSelector"), inner_selector_query())] };
    assert_eq!(
        query_text(&env, &q, FUEL).unwrap(),
        "with\n\t_selector := (select Inner limit 1),\nselect (_selector) {\n\treq := (req),\n\topt := (opt),\n}"
    );
}

#[test]
fn insta_test_tuple_named() {
    let attrs = vec![params_attr(vec![
        ("n", TypeRef::Scalar(ScalarKind::Int32)),
        ("v", TypeRef::Scalar(ScalarKind::Str)),
    ])];
    let data = FieldsInput::Struct(vec![
        FieldInput {
            field_name: None,
            ty: TypeRef::Scalar(ScalarKind::Str),
            var_attrs: vec![AttrExpr::StrLit(s("v"))],
        },
        FieldInput {
            field_name: None,
            ty: TypeRef::Scalar(ScalarKind::Int32),
            var_attrs: vec![AttrExpr::StrLit(s("n"))],
        },
    ]);
    let errs = derive(attrs, data).unwrap_err();
    assert_eq!(errs, vec![AttrError::ExpectedSingleUnnamedField]);
}

#[test]
fn insta_test_tuple_direct() {
    // `direct(v, n)` carries no string literal, so reading it fails
    let attrs = vec![
        params_attr(vec![
            ("n", TypeRef::Scalar(ScalarKind::Int32)),
            ("v", TypeRef::Scalar(ScalarKind::Str)),
        ]),
        RawAttr::Direct(DirectContent::NotText),
    ];
    let data = FieldsInput::Struct(vec![
        unnamed_field(TypeRef::Scalar(ScalarKind::Int32)),
        unnamed_field(TypeRef::Scalar(ScalarKind::Str)),
    ]);
    let errs = derive(attrs, data).unwrap_err();
    assert_eq!(errs, vec![AttrError::ExpectedStringLiteral]);
}

#[test]
fn insta_test_struct_selector() {
    let data = FieldsInput::Struct(vec![
        named_field("id", TypeRef::Scalar(ScalarKind::Uuid)),
        named_field("opt", TypeRef::Optional(Box::new(TypeRef::Scalar(ScalarKind::Str)))),
        named_field("req", TypeRef::Scalar(ScalarKind::Str)),
        named_field_var(
            "strlen",
            TypeRef::Scalar(ScalarKind::Int64),
            AttrExpr::StrLit(s("len(.req)")),
        ),
    ]);
    let q = derive(vec![], data).unwrap();
    let env = QueryEnv { entries: vec![] };
    assert_eq!(
        selector_body(&env, &q.result, FUEL).unwrap(),
        "\tid := (id),\n\topt := (opt),\n\treq := (req),\n\tstrlen := (len(.req)),"
    );
}

#[test]
fn error_accumulation_reports_all_violations() {
    // two `params` lists and a `select`/`direct` conflict: both reported at once
    let attrs = vec![
        params_attr(vec![("a", TypeRef::Scalar(ScalarKind::Int32))]),
        params_attr(vec![("b", TypeRef::Scalar(ScalarKind::Int32))]),
        select_attr("select Inner limit 1"),
        direct_attr("select Inner limit 1"),
    ];
    let data = FieldsInput::Struct(vec![unnamed_field(TypeRef::Named(s("Inner")))]);
    let errs = derive(attrs, data).unwrap_err();
    assert_eq!(
        errs,
        vec![AttrError::MultipleParamsAttrs, AttrError::SelectAndDirect]
    );
}

#[test]
fn shape_errors() {
    // an enum is not supported
    let errs = derive(vec![], FieldsInput::Enum).unwrap_err();
    assert_eq!(errs, vec![AttrError::EnumsNotSupported]);

    // an empty struct needs `direct`
    let errs = derive(vec![], FieldsInput::Struct(vec![])).unwrap_err();
    assert_eq!(errs, vec![AttrError::EmptyStructNeedsDirect]);

    // a wrapper needs `select` or `direct`
    let data = FieldsInput::Struct(vec![unnamed_field(TypeRef::Named(s("Inner")))]);
    let errs = derive(vec![], data).unwrap_err();
    assert_eq!(errs, vec![AttrError::WrapperNeedsSelectOrDirect]);

    // `direct` is not allowed on a struct with named fields
    let data = FieldsInput::Struct(vec![named_field("a", TypeRef::Scalar(ScalarKind::Str))]);
    let errs = derive(vec![direct_attr("whatever")], data).unwrap_err();
    assert_eq!(errs, vec![AttrError::DirectOnNonEmptyStruct]);

    // more than one `select`, more than one `direct`
    let data = FieldsInput::Struct(vec![unnamed_field(TypeRef::Named(s("Inner")))]);
    let errs = derive(
        vec![select_attr("a"), select_attr("b"), direct_attr("c"), direct_attr("d")],
        data,
    )
    .unwrap_err();
    assert_eq!(
        errs,
        vec![
            AttrError::MultipleSelectAttrs,
            AttrError::MultipleDirectAttrs,
            AttrError::WrapperNeedsSelectOrDirect,
        ]
    );
}

#[test]
fn wrapper_prefers_direct_over_select() {
    let attrs = vec![select_attr("select A"), direct_attr("select B")];
    let data = FieldsInput::Struct(vec![unnamed_field(TypeRef::Named(s("Inner")))]);
    // the conflict is still reported
    let errs = derive(attrs, data).unwrap_err();
    assert_eq!(errs, vec![AttrError::SelectAndDirect]);
}

#[test]
fn selector_source_kept_when_simple() {
    // a simple dotted source is used directly, with no `_selector` binding
    let attrs = vec![RawAttr::Select(AttrExpr::Path(vec![s("Inner")]))];
    let data = FieldsInput::Struct(vec![named_field("req", TypeRef::Scalar(ScalarKind::Str))]);
    let q = derive(attrs, data).unwrap();
    assert_eq!(q.withs, vec![]);
    assert_eq!(
        q.result,
        QuerySelector::Selector(
            s("Inner"),
            vec![(s("req"), SelectorValue::SubSelector(TypeRef::Scalar(ScalarKind::Str)))],
        )
    );
}

#[test]
fn expression_parse_errors() {
    assert_eq!(
        QueryVar::from_expr(&AttrExpr::OtherLit).unwrap_err(),
        AttrError::ExpectedStringOrStructName
    );
    assert_eq!(
        QueryVar::from_expr(&AttrExpr::Path(vec![s("a"), s("b")])).unwrap_err(),
        AttrError::ExpectedIdent
    );
    assert_eq!(
        QueryVar::from_expr(&AttrExpr::OtherExpr).unwrap_err(),
        AttrError::ExpectedStructName
    );
    assert_eq!(
        QueryVar::from_expr(&AttrExpr::CallExpr(vec![s("T")], vec![AttrArg::Bare]))
            .unwrap_err(),
        AttrError::ExpectedNamedArgument
    );
    assert_eq!(
        QueryVar::from_expr(&AttrExpr::CallExpr(vec![s("T")], vec![AttrArg::NamedBadLhs]))
            .unwrap_err(),
        AttrError::ExpectedSimpleNamedArgument
    );
    assert_eq!(
        QueryVar::from_expr(&AttrExpr::CallExpr(
            vec![s("T")],
            vec![AttrArg::Named(vec![s("a"), s("b")], AttrExpr::StrLit(s("x")))],
        ))
        .unwrap_err(),
        AttrError::ExpectedIdent
    );
    // a bare identifier parses as a reference
    assert_eq!(
        QueryVar::from_expr(&AttrExpr::Path(vec![s("calc")])).unwrap(),
        var("calc")
    );
}

#[test]
fn attribute_parse_errors() {
    let r = ComposableQueryAttribute::from_attrs(&vec![RawAttr::Params(vec![
        ParamEntry::Receiver,
    ])]);
    assert_eq!(r.unwrap_err(), vec![AttrError::ReceiverParam]);

    let r = ComposableQueryAttribute::from_attrs(&vec![RawAttr::Params(vec![
        ParamEntry::Typed(ParamPat::OtherPat, TypeRef::Scalar(ScalarKind::Str)),
    ])]);
    assert_eq!(r.unwrap_err(), vec![AttrError::ExpectedSimpleIdentifier]);

    let r = ComposableQueryAttribute::from_attrs(&vec![RawAttr::With(vec![])]);
    assert_eq!(r.unwrap_err(), vec![AttrError::ExpectedArgsForWith]);

    // several bad attributes are all reported
    let r = ComposableQueryAttribute::from_attrs(&vec![
        RawAttr::With(vec![]),
        RawAttr::Direct(DirectContent::NotText),
        RawAttr::OtherAttr,
    ]);
    assert_eq!(
        r.unwrap_err(),
        vec![AttrError::ExpectedArgsForWith, AttrError::ExpectedStringLiteral]
    );

    // unrecognized attributes are ignored
    let r = ComposableQueryAttribute::from_attrs(&vec![RawAttr::OtherAttr]);
    assert_eq!(r.unwrap(), vec![]);
}

#[test]
fn with_keeps_last_entry() {
    let r = ComposableQueryAttribute::from_attrs(&vec![RawAttr::With(vec![
        (s("a"), AttrExpr::StrLit(s("1"))),
        (s("b"), AttrExpr::StrLit(s("2"))),
    ])])
    .unwrap();
    assert_eq!(
        r,
        vec![ComposableQueryAttribute::With(With(s("b"), var("2")))]
    );
}

#[test]
fn field_var_override_rules() {
    // one override parses
    let f = FieldInput {
        field_name: Some(s("calc")),
        ty: TypeRef::Scalar(ScalarKind::Int32),
        var_attrs: vec![AttrExpr::StrLit(s("calc"))],
    };
    let out = ComposableQueryReturn::from_field(f).unwrap();
    assert_eq!(out.var, Some(var("calc")));

    // two overrides are rejected
    let f = FieldInput {
        field_name: Some(s("calc")),
        ty: TypeRef::Scalar(ScalarKind::Int32),
        var_attrs: vec![AttrExpr::StrLit(s("a")), AttrExpr::StrLit(s("b"))],
    };
    assert_eq!(
        ComposableQueryReturn::from_field(f).unwrap_err(),
        AttrError::MultipleVarAttrs
    );
}

#[test]
fn error_messages_name_the_violation() {
    assert_eq!(
        AttrError::MultipleParamsAttrs.message(),
        "expected at most one #[params] attribute"
    );
    assert_eq!(
        AttrError::SelectAndDirect.message(),
        "expected at most one of #[select] or #[direct]"
    );
    assert_eq!(AttrError::EnumsNotSupported.message(), "enums are not supported");
}

#[test]
fn simple_name_recognition() {
    assert_eq!(var("Inner.name_2").as_simple_name_or_ref(), Some("Inner.name_2"));
    assert_eq!(var("select Inner").as_simple_name_or_ref(), None);
    assert_eq!(
        QueryVar::Call(s("T"), vec![]).as_simple_name_or_ref(),
        None
    );
}

#[test]
fn object_insta_test_tuple_direct() {
    // the generated object mapper, exercised on a two-field structure
    let shape = vec![s("req"), s("opt")];
    let fields = vec![Some(WireValue::Str(s("aaa"))), None];
    let got = Inner::from_edgedb_object(shape, fields).unwrap();
    assert_eq!(got, Inner { req: s("aaa"), opt: None });
}

#[test]
fn wf_checker() {
    let mixed = FieldsInput::Struct(vec![
        named_field("a", TypeRef::Scalar(ScalarKind::Str)),
        unnamed_field(TypeRef::Scalar(ScalarKind::Str)),
    ]);
    assert!(!fields_input_is_wf(&mixed));
    assert!(fields_input_is_wf(&FieldsInput::Enum));
}
