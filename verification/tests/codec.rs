use composable_query::prim::{EdgedbJson, EdgedbPrim};
use composable_query::refs::Ref;
use composable_query::shapes::{Inner, Point};
use composable_query::value::{EdgedbSetValue, EdgedbValue};
use composable_query::wire::{DecodeErrorKind, Uuid, WireValue};
use composable_query::args::EdgedbQueryArgs;
use composable_query::wire::Cardinality;

fn obj(shape: &[&str], fields: Vec<Option<WireValue>>) -> WireValue {
    WireValue::Object {
        shape: shape.iter().map(|s| s.to_string()).collect(),
        fields,
    }
}

#[test]
fn round_trip_scalars() {
    assert_eq!(
        i16::from_edgedb_val(7i16.to_edgedb_val().unwrap()).unwrap(),
        7i16
    );
    assert_eq!(
        i32::from_edgedb_val((-3i32).to_edgedb_val().unwrap()).unwrap(),
        -3i32
    );
    assert_eq!(
        i64::from_edgedb_val(1i64.to_edgedb_val().unwrap()).unwrap(),
        1i64
    );
    assert_eq!(
        bool::from_edgedb_val(true.to_edgedb_val().unwrap()).unwrap(),
        true
    );
    assert_eq!(
        String::from_edgedb_val("hi".to_string().to_edgedb_val().unwrap()).unwrap(),
        "hi".to_string()
    );
    let u = Uuid(0x1234_5678_9abc_def0_u128);
    assert_eq!(Uuid::from_edgedb_val(u.to_edgedb_val().unwrap()).unwrap(), u);
    let j = EdgedbJson("{\"a\":1}".to_string());
    assert_eq!(
        EdgedbJson::from_edgedb_val(EdgedbJson("{\"a\":1}".to_string()).to_edgedb_val().unwrap())
            .unwrap(),
        j
    );
}

#[test]
fn scalar_tag_mismatch() {
    let e = i32::from_edgedb_val(WireValue::Str("x".to_string())).unwrap_err();
    assert_eq!(e.kind, DecodeErrorKind::Unexpected(WireValue::Str("x".to_string())));
    assert_eq!(e.field, None);
    assert!(String::from_edgedb_val(WireValue::Int64(4)).is_err());
    assert!(EdgedbJson::from_edgedb_val(WireValue::Str("{}".to_string())).is_err());
}

#[test]
fn type_cast_names() {
    assert_eq!(<i16 as EdgedbPrim>::type_cast(), "int16");
    assert_eq!(<i32 as EdgedbPrim>::type_cast(), "int32");
    assert_eq!(<i64 as EdgedbPrim>::type_cast(), "int64");
    assert_eq!(<bool as EdgedbPrim>::type_cast(), "bool");
    assert_eq!(<String as EdgedbPrim>::type_cast(), "str");
    assert_eq!(<Uuid as EdgedbPrim>::type_cast(), "uuid");
    assert_eq!(<EdgedbJson as EdgedbPrim>::type_cast(), "json");
}

#[test]
fn cardinality_one_rejects_set() {
    let v = WireValue::Rows(vec![WireValue::Str("a".into()), WireValue::Str("b".into())]);
    assert!(<String as EdgedbSetValue>::from_edgedb_set_value(v).is_err());
}

#[test]
fn cardinality_at_least_one_rejects_empty_set() {
    let v = WireValue::Rows(vec![]);
    let e =
        <nonempty::NonEmpty<String> as EdgedbSetValue>::from_edgedb_set_value(v).unwrap_err();
    assert_eq!(e.kind, DecodeErrorKind::ExpectedNonEmpty);
}

#[test]
fn cardinality_required_rejects_nothing() {
    assert!(<String as EdgedbSetValue>::from_edgedb_set_value(WireValue::Nothing).is_err());
    let e =
        <String as EdgedbSetValue>::interpret_possibly_missing_required_value(None).unwrap_err();
    assert_eq!(e.kind, DecodeErrorKind::MissingRequired);
}

#[test]
fn cardinality_optional_accepts_nothing() {
    assert_eq!(
        <Option<String> as EdgedbSetValue>::from_edgedb_set_value(WireValue::Nothing).unwrap(),
        None
    );
    assert_eq!(
        <Option<String> as EdgedbSetValue>::interpret_possibly_missing_required_value(None)
            .unwrap(),
        None
    );
    // a present optional flattens rather than nests
    assert_eq!(
        <Option<String> as EdgedbSetValue>::interpret_possibly_missing_required_value(Some(Some(
            "v".to_string()
        )))
        .unwrap(),
        Some("v".to_string())
    );
}

#[test]
fn many_decodes_in_wire_order_with_duplicates() {
    let v = WireValue::Rows(vec![
        WireValue::Int64(5),
        WireValue::Int64(5),
        WireValue::Int64(2),
    ]);
    assert_eq!(
        <Vec<i64> as EdgedbSetValue>::from_edgedb_set_value(v).unwrap(),
        vec![5, 5, 2]
    );
    // absent slot decodes to the empty vector
    assert_eq!(
        <Vec<i64> as EdgedbSetValue>::interpret_possibly_missing_required_value(None).unwrap(),
        Vec::<i64>::new()
    );
    // non-set shapes in a set slot are rejected, not coerced
    assert!(<Vec<i64> as EdgedbSetValue>::from_edgedb_set_value(WireValue::Nothing).is_err());
    assert!(
        <Vec<i64> as EdgedbSetValue>::from_edgedb_set_value(WireValue::Array(vec![])).is_err()
    );
}

#[test]
fn non_empty_keeps_order() {
    let v = WireValue::Rows(vec![
        WireValue::Str("a".to_string()),
        WireValue::Str("b".to_string()),
    ]);
    let ne = <nonempty::NonEmpty<String> as EdgedbSetValue>::from_edgedb_set_value(v).unwrap();
    assert_eq!(ne.head, "a".to_string());
    assert_eq!(ne.tail, vec!["b".to_string()]);
    let back = ne.to_edgedb_set_value().unwrap();
    assert_eq!(
        back,
        WireValue::Rows(vec![
            WireValue::Str("a".to_string()),
            WireValue::Str("b".to_string()),
        ])
    );
}

#[test]
fn point_decodes_from_object() {
    let v = obj(
        &["x", "y"],
        vec![Some(WireValue::Int32(3)), Some(WireValue::Int32(4))],
    );
    assert_eq!(Point::from_edgedb_value(v).unwrap(), Point { x: 3, y: 4 });
}

#[test]
fn point_missing_required_field_names_it() {
    let v = obj(&["x"], vec![Some(WireValue::Int32(3))]);
    let e = Point::from_edgedb_value(v).unwrap_err();
    assert_eq!(e.kind, DecodeErrorKind::MissingRequired);
    assert_eq!(e.field, Some("y".to_string()));
}

#[test]
fn object_extra_elements_are_ignored() {
    let v = obj(
        &["x", "extra", "y"],
        vec![
            Some(WireValue::Int32(1)),
            Some(WireValue::Str("noise".to_string())),
            Some(WireValue::Int32(2)),
        ],
    );
    assert_eq!(Point::from_edgedb_value(v).unwrap(), Point { x: 1, y: 2 });
}

#[test]
fn object_field_decode_error_names_field() {
    let v = obj(
        &["x", "y"],
        vec![Some(WireValue::Str("nope".to_string())), Some(WireValue::Int32(4))],
    );
    let e = Point::from_edgedb_value(v).unwrap_err();
    assert_eq!(e.field, Some("x".to_string()));
}

#[test]
fn inner_optional_field_absent_and_present() {
    let v = obj(&["req", "opt"], vec![Some(WireValue::Str("aaa".into())), None]);
    assert_eq!(
        Inner::from_edgedb_value(v).unwrap(),
        Inner { req: "aaa".to_string(), opt: None }
    );
    let v = obj(
        &["req", "opt"],
        vec![
            Some(WireValue::Str("aaa".into())),
            Some(WireValue::Str("cc".into())),
        ],
    );
    assert_eq!(
        Inner::from_edgedb_value(v).unwrap(),
        Inner { req: "aaa".to_string(), opt: Some("cc".to_string()) }
    );
}

#[test]
fn inner_round_trips_through_object_payload() {
    let start = Inner { req: "r".to_string(), opt: Some("o".to_string()) };
    let w = start.to_edgedb_value().unwrap();
    let back = Inner::from_edgedb_value(w).unwrap();
    assert_eq!(back, Inner { req: "r".to_string(), opt: Some("o".to_string()) });
}

#[test]
fn non_object_is_rejected_for_object_types() {
    let e = Inner::from_edgedb_value(WireValue::Int64(1)).unwrap_err();
    assert_eq!(e.kind, DecodeErrorKind::ExpectedObject);
}

#[test]
fn ref_with_only_id_has_no_known_value() {
    let u = Uuid(42);
    let v = obj(&["id"], vec![Some(WireValue::Uuid(u))]);
    let r: Ref<Inner> = Ref::from_edgedb_value(v).unwrap();
    assert_eq!(r.id, u);
    assert_eq!(r.known_value, None);
}

#[test]
fn ref_with_payload_decodes_the_rest() {
    let u = Uuid(42);
    let v = obj(
        &["id", "req", "opt"],
        vec![
            Some(WireValue::Uuid(u)),
            Some(WireValue::Str("aaa".into())),
            None,
        ],
    );
    let r: Ref<Inner> = Ref::from_edgedb_value(v).unwrap();
    assert_eq!(r.id, u);
    assert_eq!(
        r.known_value,
        Some(Inner { req: "aaa".to_string(), opt: None })
    );
}

#[test]
fn ref_requires_an_id_element() {
    let v = obj(&["req"], vec![Some(WireValue::Str("aaa".into()))]);
    let e = <Ref<Inner> as EdgedbValue>::from_edgedb_value(v).unwrap_err();
    assert_eq!(e.kind, DecodeErrorKind::ExpectedId);
    let e2 = <Ref<Inner> as EdgedbValue>::from_edgedb_value(WireValue::Uuid(Uuid(1))).unwrap_err();
    assert_eq!(e2.kind, DecodeErrorKind::ExpectedObject);
}

#[test]
fn ref_does_not_encode() {
    let r: Ref<Inner> = Ref { id: Uuid(1), known_value: None };
    let e = r.to_edgedb_value().unwrap_err();
    assert_eq!(e.kind, DecodeErrorKind::RefEncodingUnsupported);
}

#[test]
fn tuples_convert_in_order() {
    let w = (1i64, "a".to_string()).to_edgedb_value().unwrap();
    assert_eq!(
        w,
        WireValue::Tuple(vec![WireValue::Int64(1), WireValue::Str("a".to_string())])
    );
    let back: (i64, String) = EdgedbValue::from_edgedb_value(w).unwrap();
    assert_eq!(back, (1i64, "a".to_string()));
    let e = <(i64, String) as EdgedbValue>::from_edgedb_value(WireValue::Tuple(vec![
        WireValue::Int64(1),
    ]))
    .unwrap_err();
    assert_eq!(e.kind, DecodeErrorKind::ExpectedTupleOfLen(2));
}

#[test]
fn unit_converts_through_nothing() {
    assert_eq!(().to_edgedb_value().unwrap(), WireValue::Nothing);
    <() as EdgedbValue>::from_edgedb_value(WireValue::Nothing).unwrap();
    assert!(<() as EdgedbValue>::from_edgedb_value(WireValue::Int16(1)).is_err());
}

#[test]
fn query_args_encode_positionally() {
    assert_eq!(().as_query_args().unwrap(), Vec::<WireValue>::new());
    assert_eq!(
        (7i32, "x".to_string()).as_query_args().unwrap(),
        vec![WireValue::Int32(7), WireValue::Str("x".to_string())]
    );
}

#[test]
fn expected_cardinalities() {
    assert_eq!(
        <String as EdgedbSetValue>::expected_cardinality(),
        Cardinality::One
    );
    assert_eq!(
        <Option<String> as EdgedbSetValue>::expected_cardinality(),
        Cardinality::AtMostOne
    );
    assert_eq!(
        <Vec<String> as EdgedbSetValue>::expected_cardinality(),
        Cardinality::Many
    );
    assert_eq!(
        <nonempty::NonEmpty<String> as EdgedbSetValue>::expected_cardinality(),
        Cardinality::AtLeastOne
    );
}
