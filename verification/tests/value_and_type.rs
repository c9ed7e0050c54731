use golem_api_model::analysed_type::{
    self as ty, AnalysedType, NameOptionTypePair, NameTypePair, TypeChr, TypeList, TypeResult,
    TypeU32, TypeU8,
};
use golem_api_model::platform::Uuid;
use golem_api_model::value::{Uri, Value};
use golem_api_model::value_and_type::{IntoValue, IntoValueAndType, ValueAndType};
use golem_api_model::wit::{WitNode, WitValue};
use std::collections::HashMap;
use std::time::{Duration, Instant};

/// Whether `v` has type `t`, checked at run time.
fn has_type(v: &Value, t: &AnalysedType) -> bool {
    fn payload(p: &Option<Box<Value>>, t: &Option<Box<AnalysedType>>) -> bool {
        match (p, t) {
            (None, None) => true,
            (Some(p), Some(t)) => has_type(p, t),
            _ => false,
        }
    }
    match (v, t) {
        (Value::Bool(_), AnalysedType::Bool(_)) => true,
        (Value::U8(_), AnalysedType::U8(_)) => true,
        (Value::U16(_), AnalysedType::U16(_)) => true,
        (Value::U32(_), AnalysedType::U32(_)) => true,
        (Value::U64(_), AnalysedType::U64(_)) => true,
        (Value::S8(_), AnalysedType::S8(_)) => true,
        (Value::S16(_), AnalysedType::S16(_)) => true,
        (Value::S32(_), AnalysedType::S32(_)) => true,
        (Value::S64(_), AnalysedType::S64(_)) => true,
        (Value::F32(_), AnalysedType::F32(_)) => true,
        (Value::F64(_), AnalysedType::F64(_)) => true,
        (Value::Char(_), AnalysedType::Chr(_)) => true,
        (Value::String(_), AnalysedType::Str(_)) => true,
        (Value::List(items), AnalysedType::List(l)) => items.iter().all(|i| has_type(i, &l.inner)),
        (Value::Tuple(items), AnalysedType::Tuple(tt)) => {
            items.len() == tt.items.len()
                && items.iter().zip(tt.items.iter()).all(|(i, t)| has_type(i, t))
        }
        (Value::Record(values), AnalysedType::Record(r)) => {
            values.len() == r.fields.len()
                && values.iter().zip(r.fields.iter()).all(|(v, f)| has_type(v, &f.typ))
        }
        (Value::Variant { case_idx, case_value }, AnalysedType::Variant(tv)) => {
            match tv.cases.get(*case_idx as usize) {
                Some(case) => match (case_value, &case.typ) {
                    (None, None) => true,
                    (Some(p), Some(t)) => has_type(p, t),
                    _ => false,
                },
                None => false,
            }
        }
        (Value::Enum(i), AnalysedType::Enum(te)) => (*i as usize) < te.cases.len(),
        (Value::Flags(f), AnalysedType::Flags(tf)) => f.len() == tf.names.len(),
        (Value::Option(None), AnalysedType::Option(_)) => true,
        (Value::Option(Some(v)), AnalysedType::Option(to)) => has_type(v, &to.inner),
        (Value::Result(Ok(p)), AnalysedType::Result(tr)) => payload(p, &tr.ok),
        (Value::Result(Err(p)), AnalysedType::Result(tr)) => payload(p, &tr.err),
        (Value::Handle { .. }, AnalysedType::Handle(_)) => true,
        _ => false,
    }
}

fn well_typed(vt: &ValueAndType) -> bool {
    has_type(&vt.value, &vt.typ)
}

#[test]
fn scalars_convert_to_their_values_and_types() {
    assert_eq!(7u8.into_value(), Value::U8(7));
    assert_eq!(u8::get_type(), AnalysedType::U8(TypeU8));
    assert_eq!(65535u16.into_value(), Value::U16(65535));
    assert_eq!(12u32.into_value(), Value::U32(12));
    assert_eq!(u64::MAX.into_value(), Value::U64(u64::MAX));
    assert_eq!((-3i8).into_value(), Value::S8(-3));
    assert_eq!((-300i16).into_value(), Value::S16(-300));
    assert_eq!((-70000i32).into_value(), Value::S32(-70000));
    assert_eq!(i64::MIN.into_value(), Value::S64(i64::MIN));
    assert_eq!(true.into_value(), Value::Bool(true));
    assert_eq!('x'.into_value(), Value::Char('x'));
    assert_eq!(char::get_type(), AnalysedType::Chr(TypeChr));
    assert_eq!(String::from("abc").into_value(), Value::String("abc".to_string()));
    assert_eq!("abc".into_value(), Value::String("abc".to_string()));
    assert_eq!(<&str>::get_type(), ty::str());
    assert_eq!(i64::get_type(), ty::s64());
}

#[test]
fn into_value_and_type_pairs_value_with_type() {
    let vt = 42u32.into_value_and_type();
    assert_eq!(vt, ValueAndType::new(Value::U32(42), AnalysedType::U32(TypeU32)));
    assert!(well_typed(&vt));

    let vt = vec![(1u8, "a".to_string()), (2u8, "b".to_string())].into_value_and_type();
    assert!(well_typed(&vt));
    assert_eq!(
        vt.value,
        Value::List(vec![
            Value::Tuple(vec![Value::U8(1), Value::String("a".to_string())]),
            Value::Tuple(vec![Value::U8(2), Value::String("b".to_string())]),
        ])
    );
    assert_eq!(vt.typ, ty::list(ty::tuple(vec![ty::u8(), ty::str()])));
}

#[test]
fn results_and_options_convert_with_their_payloads() {
    let ok: Result<u8, String> = Ok(1);
    assert_eq!(ok.into_value(), Value::Result(Ok(Some(Box::new(Value::U8(1))))));
    let err: Result<u8, String> = Err("no".to_string());
    assert_eq!(
        err.into_value(),
        Value::Result(Err(Some(Box::new(Value::String("no".to_string())))))
    );
    assert_eq!(<Result<u8, String>>::get_type(), ty::result(ty::u8(), ty::str()));

    let unit_ok: Result<(), u8> = Ok(());
    assert_eq!(unit_ok.into_value(), Value::Result(Ok(None)));
    assert_eq!(
        <Result<(), u8>>::get_type(),
        AnalysedType::Result(TypeResult { ok: None, err: Some(Box::new(ty::u8())) })
    );
    let unit_err: Result<u8, ()> = Err(());
    assert_eq!(unit_err.into_value(), Value::Result(Err(None)));
    assert_eq!(<Result<u8, ()>>::get_type(), ty::result_ok(ty::u8()));

    assert_eq!(Some(3u16).into_value(), Value::Option(Some(Box::new(Value::U16(3)))));
    assert_eq!(None::<u16>.into_value(), Value::Option(None));
    assert_eq!(<Option<u16>>::get_type(), ty::option(ty::u16()));

    for vt in [
        Ok::<u8, String>(5).into_value_and_type(),
        Err::<(), u8>(9).into_value_and_type(),
        Ok::<u8, ()>(5).into_value_and_type(),
        Some('c').into_value_and_type(),
        (1u8, true, "t").into_value_and_type(),
    ] {
        assert!(well_typed(&vt));
    }
}

#[test]
fn triples_convert_to_tuples() {
    let v = (1u8, -1i32, false).into_value();
    assert_eq!(v, Value::Tuple(vec![Value::U8(1), Value::S32(-1), Value::Bool(false)]));
    assert_eq!(<(u8, i32, bool)>::get_type(), ty::tuple(vec![ty::u8(), ty::s32(), ty::bool()]));
}

#[test]
fn hash_maps_convert_to_lists_of_entries() {
    let mut map = HashMap::new();
    map.insert(1u32, "one".to_string());
    map.insert(2u32, "two".to_string());
    let vt = map.into_value_and_type();
    assert!(well_typed(&vt));
    assert_eq!(vt.typ, ty::list(ty::tuple(vec![ty::u32(), ty::str()])));
    let Value::List(items) = vt.value else { panic!("not a list") };
    assert_eq!(items.len(), 2);
    for (k, v) in [(1u32, "one"), (2u32, "two")] {
        let expected = Value::Tuple(vec![Value::U32(k), Value::String(v.to_string())]);
        assert!(items.contains(&expected));
    }
}

#[test]
fn uuids_convert_to_their_hyphenated_text() {
    let id = Uuid::from_u128(0x67e5504410b1426f9247bb680e5fe0c8);
    assert_eq!(id.as_u128(), 0x67e5504410b1426f9247bb680e5fe0c8);
    assert_eq!(
        id.into_value(),
        Value::String("67e55044-10b1-426f-9247-bb680e5fe0c8".to_string())
    );
    assert_eq!(Uuid::get_type(), ty::str());
    assert_eq!(
        Uuid::from_u128(0).into_value(),
        Value::String("00000000-0000-0000-0000-000000000000".to_string())
    );
    assert_eq!(
        Uuid::from_u128(u128::MAX).into_value(),
        Value::String("ffffffff-ffff-ffff-ffff-ffffffffffff".to_string())
    );
}

#[test]
fn durations_and_instants_convert_to_nanoseconds() {
    assert_eq!(Duration::from_nanos(1500).into_value(), Value::U64(1500));
    assert_eq!(Duration::new(2, 5).into_value(), Value::U64(2_000_000_005));
    assert_eq!(Duration::from_millis(1500).into_value(), Value::U64(1_500_000_000));
    assert_eq!(
        Duration::from_secs(u64::MAX).into_value(),
        Value::U64((u64::MAX as u128 * 1_000_000_000) as u64)
    );
    assert_eq!(Duration::get_type(), ty::u64());
    let Value::U64(_) = Instant::now().into_value() else { panic!("not a u64") };
    assert_eq!(Instant::get_type(), ty::u64());
}

#[test]
fn list_items_pair_each_item_with_the_item_type() {
    let vt = ValueAndType::new(
        Value::List(vec![Value::U8(1), Value::U8(2)]),
        ty::list(ty::u8()),
    );
    let items = vt.into_list_items().expect("a list");
    assert_eq!(
        items,
        vec![
            ValueAndType::new(Value::U8(1), ty::u8()),
            ValueAndType::new(Value::U8(2), ty::u8()),
        ]
    );
    assert!(items.iter().all(well_typed));

    let empty = ValueAndType::new(Value::List(vec![]), ty::list(ty::str()));
    assert_eq!(empty.into_list_items(), Some(vec![]));
}

#[test]
fn non_lists_have_no_list_items() {
    assert_eq!(ValueAndType::new(Value::U8(1), ty::u8()).into_list_items(), None);
    assert_eq!(ValueAndType::new(Value::List(vec![]), ty::u8()).into_list_items(), None);
    assert_eq!(
        ValueAndType::new(Value::Tuple(vec![]), ty::list(ty::u8())).into_list_items(),
        None
    );
}

#[test]
fn a_pair_gives_back_its_value_and_its_type() {
    let vt = ValueAndType::new(Value::Bool(true), ty::bool());
    assert_eq!(Value::from(vt), Value::Bool(true));
    let vt = ValueAndType::new(Value::Bool(true), ty::bool());
    assert_eq!(AnalysedType::from(vt), ty::bool());
}

#[test]
fn duplicated_types_are_equal() {
    let t = ty::variant(vec![
        ty::case("a", ty::record(vec![ty::field("x", ty::list(ty::u8()))])),
        NameOptionTypePair { name: "b".to_string(), typ: None },
    ]);
    assert_eq!(t.duplicate(), t);
    let t = ty::result(ty::option(ty::chr()), ty::tuple(vec![ty::float32(), ty::float64()]));
    assert_eq!(t.duplicate(), t);
    let t = AnalysedType::List(TypeList { inner: Box::new(ty::s16()) });
    assert_eq!(t.duplicate(), t);
    let f = NameTypePair { name: "n".to_string(), typ: ty::u8() };
    assert_eq!(ty::field("n", ty::u8()), f);
}

#[test]
fn uris_convert_to_records_with_a_value_field() {
    let uri = Uri { value: "urn:a".to_string() };
    assert_eq!(uri.into_value(), Value::Record(vec![Value::String("urn:a".to_string())]));
    assert_eq!(Uri::get_type(), ty::record(vec![ty::field("value", ty::str())]));
}

#[test]
fn wit_nodes_convert_to_cases_of_the_node_variant() {
    assert_eq!(
        WitNode::PrimU8(7).into_value(),
        Value::Variant { case_idx: 8, case_value: Some(Box::new(Value::U8(7))) }
    );
    assert_eq!(
        WitNode::RecordValue(vec![1, 2]).into_value(),
        Value::Variant {
            case_idx: 0,
            case_value: Some(Box::new(Value::List(vec![Value::S32(1), Value::S32(2)]))),
        }
    );
    assert_eq!(
        WitNode::VariantValue((3, None)).into_value(),
        Value::Variant {
            case_idx: 1,
            case_value: Some(Box::new(Value::Tuple(vec![Value::U32(3), Value::Option(None)]))),
        }
    );
    assert_eq!(
        WitNode::VariantValue((3, Some(7))).into_value(),
        Value::Variant {
            case_idx: 1,
            case_value: Some(Box::new(Value::Tuple(vec![
                Value::U32(3),
                Value::Option(Some(Box::new(Value::S32(7)))),
            ]))),
        }
    );
    assert_eq!(
        WitNode::PrimFloat64(0x3ff0000000000000).into_value(),
        Value::Variant { case_idx: 17, case_value: Some(Box::new(Value::F64(0x3ff0000000000000))) }
    );
    assert_eq!(
        WitNode::Handle((Uri { value: "u".to_string() }, 9)).into_value(),
        Value::Variant {
            case_idx: 21,
            case_value: Some(Box::new(Value::Tuple(vec![
                Value::Record(vec![Value::String("u".to_string())]),
                Value::U64(9),
            ]))),
        }
    );

    let AnalysedType::Variant(node_type) = WitNode::get_type() else { panic!("not a variant") };
    let names: Vec<&str> = node_type.cases.iter().map(|c| c.name.as_str()).collect();
    assert_eq!(names.len(), 22);
    assert_eq!(names[0], "record-value");
    assert_eq!(names[16], "prim-float32");
    assert_eq!(names[21], "handle");
}

#[test]
fn wit_nodes_convert_well_typed() {
    let nodes = vec![
        WitNode::RecordValue(vec![1]),
        WitNode::VariantValue((0, None)),
        WitNode::VariantValue((0, Some(1))),
        WitNode::EnumValue(2),
        WitNode::FlagsValue(vec![true, false]),
        WitNode::TupleValue(vec![]),
        WitNode::ListValue(vec![5]),
        WitNode::OptionValue(Some(1)),
        WitNode::ResultValue(Err(None)),
        WitNode::PrimU16(1),
        WitNode::PrimS64(-1),
        WitNode::PrimFloat32(0),
        WitNode::PrimChar('z'),
        WitNode::PrimBool(false),
        WitNode::PrimString("s".to_string()),
        WitNode::Handle((Uri { value: "u".to_string() }, 1)),
    ];
    let vt = WitValue { nodes }.into_value_and_type();
    assert!(well_typed(&vt));

    let vt = WitNode::VariantValue((0, Some(1))).into_value_and_type();
    assert!(well_typed(&vt));
}

#[test]
fn values_types_and_pairs_clone_to_equal_copies() {
    let v = Value::Variant {
        case_idx: 2,
        case_value: Some(Box::new(Value::Result(Err(Some(Box::new(Value::List(vec![
            Value::Flags(vec![true]),
            Value::Handle { uri: Uri { value: "u".to_string() }, resource_id: 3 },
        ]))))))),
    };
    assert_eq!(v.clone(), v);
    let t = ty::result(ty::list(ty::chr()), ty::record(vec![ty::field("f", ty::u8())]));
    assert_eq!(t.clone(), t);
    let vt = ValueAndType::new(v, t);
    assert_eq!(vt.clone(), vt);
}

#[test]
fn list_items_of_a_converted_vector_are_the_converted_elements() {
    let items = vec![3u8, 1, 4].into_value_and_type().into_list_items().expect("a list");
    assert_eq!(
        items,
        vec![3u8.into_value_and_type(), 1u8.into_value_and_type(), 4u8.into_value_and_type()]
    );
    let items = vec![Some("a"), None].into_value_and_type().into_list_items().expect("a list");
    assert_eq!(items, vec![Some("a").into_value_and_type(), None::<&str>.into_value_and_type()]);
}

#[test]
fn different_nodes_convert_into_different_values() {
    let nodes = || {
        vec![
            WitNode::RecordValue(vec![1, 2]),
            WitNode::TupleValue(vec![1, 2]),
            WitNode::ListValue(vec![1, 2]),
            WitNode::ListValue(vec![2, 1]),
            WitNode::VariantValue((1, None)),
            WitNode::VariantValue((1, Some(2))),
            WitNode::OptionValue(None),
            WitNode::ResultValue(Ok(None)),
            WitNode::ResultValue(Err(None)),
            WitNode::PrimU32(1),
            WitNode::EnumValue(1),
            WitNode::PrimString("1".to_string()),
            WitNode::Handle((Uri { value: "1".to_string() }, 1)),
        ]
    };
    let values: Vec<Value> = nodes().into_iter().map(|n| n.into_value()).collect();
    for i in 0..values.len() {
        for j in 0..values.len() {
            assert_eq!(values[i] == values[j], i == j);
        }
    }
    let again: Vec<Value> = nodes().into_iter().map(|n| n.into_value()).collect();
    assert_eq!(values, again);
}

#[test]
fn concatenated_vectors_convert_into_concatenated_lists() {
    let items = |v: Value| match v {
        Value::List(items) => items,
        other => panic!("not a list: {:?}", other),
    };
    let left = items(vec![1u16, 2].into_value());
    let right = items(vec![3u16].into_value());
    let both = items(vec![1u16, 2, 3].into_value());
    assert_eq!(both, [left.clone(), right.clone()].concat());
    assert_eq!(both, vec![Value::U16(1), Value::U16(2), Value::U16(3)]);
    let empty = items(Vec::<u16>::new().into_value());
    assert!(empty.is_empty());
    assert_eq!(items(vec![3u16].into_value()), [empty.clone(), right.clone()].concat());
    assert_eq!(items(vec![1u16, 2].into_value()), [left, empty].concat());
}
