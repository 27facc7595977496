use runtime_metadata::model::{
    Field, MetadataError, PrimitiveScaleType, RawPrimitive, RegistryEntry, TypeShape, VariantDef,
};
use runtime_metadata::normalize::normalize;
use runtime_metadata::registry::Registry;

fn field(id: u32) -> Field {
    Field { name: None, field: id }
}

fn named_field(name: &str, id: u32) -> Field {
    Field { name: Some(name.to_string()), field: id }
}

fn variant(index: u8, name: &str, fields: Vec<Field>) -> VariantDef {
    VariantDef { index, name: name.to_string(), fields, docs: vec![] }
}

fn entry(id: u32, def: TypeShape) -> RegistryEntry {
    RegistryEntry { id, path: vec![], def }
}

#[test]
fn option_shape_normalizes_to_option_kind() {
    let reg = Registry {
        entries: vec![
            entry(
                1,
                TypeShape::Variant(vec![
                    variant(0, "None", vec![]),
                    variant(1, "Some", vec![field(7)]),
                ]),
            ),
            entry(7, TypeShape::Primitive(RawPrimitive::U32)),
        ],
    };
    let t = normalize(&reg, 1).unwrap();
    assert_eq!(t.ty, PrimitiveScaleType::OptionType);
    assert_eq!(t.store, Some(7));
    assert!(t.variants.is_none());
    assert!(t.fields.is_none());
    assert!(t.name.is_none());
}

#[test]
fn result_shape_normalizes_to_result_kind() {
    let reg = Registry {
        entries: vec![
            entry(
                1,
                TypeShape::Variant(vec![
                    variant(0, "Ok", vec![field(3)]),
                    variant(1, "Err", vec![field(4)]),
                ]),
            ),
        ],
    };
    let t = normalize(&reg, 1).unwrap();
    assert_eq!(t.ty, PrimitiveScaleType::ResultType);
    let fields = t.fields.unwrap();
    assert_eq!(fields.len(), 2);
    assert!(fields[0].name.is_none());
    assert_eq!(fields[0].field, 3);
    assert!(fields[1].name.is_none());
    assert_eq!(fields[1].field, 4);
    assert!(t.store.is_none());
}

#[test]
fn reversed_pair_names_stay_a_generic_enum() {
    let reg = Registry {
        entries: vec![
            entry(
                1,
                TypeShape::Variant(vec![
                    variant(0, "Some", vec![field(7)]),
                    variant(1, "None", vec![]),
                ]),
            ),
        ],
    };
    let t = normalize(&reg, 1).unwrap();
    assert_eq!(t.ty, PrimitiveScaleType::Enum);
    assert_eq!(t.variants.unwrap().len(), 2);
}

#[test]
fn single_field_composite_elides_to_inner_type() {
    let reg = Registry {
        entries: vec![
            entry(1, TypeShape::Composite(vec![named_field("inner", 9)])),
            entry(9, TypeShape::Primitive(RawPrimitive::U32)),
        ],
    };
    let wrapped = normalize(&reg, 1).unwrap();
    let direct = normalize(&reg, 9).unwrap();
    assert_eq!(wrapped.ty, PrimitiveScaleType::U32);
    assert_eq!(direct.ty, PrimitiveScaleType::U32);
    assert_ne!(wrapped.ty, PrimitiveScaleType::Struct);
    assert!(wrapped.fields.is_none());
    assert!(wrapped.name.is_none());
}

#[test]
fn multi_field_composite_normalizes_to_struct_with_name() {
    let reg = Registry {
        entries: vec![
            RegistryEntry {
                id: 2,
                path: vec!["pallet_balances".to_string(), "AccountData".to_string()],
                def: TypeShape::Composite(vec![named_field("free", 3), named_field("reserved", 3)]),
            },
        ],
    };
    let t = normalize(&reg, 2).unwrap();
    assert_eq!(t.ty, PrimitiveScaleType::Struct);
    assert_eq!(t.name.unwrap(), "pallet_balances::AccountData");
    let fields = t.fields.unwrap();
    assert_eq!(fields.len(), 2);
    assert_eq!(fields[0].name.as_deref(), Some("free"));
}

#[test]
fn enum_variant_without_fields_has_fields_absent() {
    let reg = Registry {
        entries: vec![
            RegistryEntry {
                id: 4,
                path: vec!["kind".to_string()],
                def: TypeShape::Variant(vec![
                    variant(0, "A", vec![]),
                    variant(1, "B", vec![field(5)]),
                    variant(2, "C", vec![]),
                ]),
            },
        ],
    };
    let t = normalize(&reg, 4).unwrap();
    assert_eq!(t.ty, PrimitiveScaleType::Enum);
    let vs = t.variants.unwrap();
    assert_eq!(vs.len(), 3);
    assert!(vs[0].fields.is_none());
    assert_eq!(vs[1].fields.as_ref().unwrap()[0].field, 5);
    assert!(vs[2].fields.is_none());
    assert_eq!(t.name.unwrap(), "kind");
}

#[test]
fn compact_array_sequence_and_bit_sequence_normalize() {
    let reg = Registry {
        entries: vec![
            entry(0, TypeShape::Compact(9)),
            entry(1, TypeShape::Array(32, 9)),
            entry(2, TypeShape::Sequence(9)),
            entry(3, TypeShape::BitSequence(8)),
            entry(8, TypeShape::Primitive(RawPrimitive::U8)),
            entry(9, TypeShape::Primitive(RawPrimitive::U32)),
        ],
    };
    let c = normalize(&reg, 0).unwrap();
    assert_eq!(c.ty, PrimitiveScaleType::Compact);
    assert_eq!(c.store, Some(9));
    let a = normalize(&reg, 1).unwrap();
    assert_eq!(a.ty, PrimitiveScaleType::List);
    assert_eq!(a.store, Some(9));
    assert_eq!(a.length, Some(32));
    let s = normalize(&reg, 2).unwrap();
    assert_eq!(s.ty, PrimitiveScaleType::List);
    assert_eq!(s.store, Some(9));
    assert_eq!(s.length, None);
    let b = normalize(&reg, 3).unwrap();
    assert_eq!(b.ty, PrimitiveScaleType::List);
    assert_eq!(b.store, Some(8));
}

#[test]
fn tuple_normalizes_to_unnamed_fields() {
    let reg = Registry { entries: vec![entry(6, TypeShape::Tuple(vec![2, 5, 9]))] };
    let t = normalize(&reg, 6).unwrap();
    assert_eq!(t.ty, PrimitiveScaleType::Tuple);
    let fields = t.fields.unwrap();
    assert_eq!(fields.len(), 3);
    assert_eq!(fields[0].field, 2);
    assert_eq!(fields[1].field, 5);
    assert_eq!(fields[2].field, 9);
}

#[test]
fn char_and_str_primitives_normalize_to_string_kind() {
    let reg = Registry {
        entries: vec![
            entry(0, TypeShape::Primitive(RawPrimitive::Char)),
            entry(1, TypeShape::Primitive(RawPrimitive::Str)),
            entry(2, TypeShape::Primitive(RawPrimitive::Bool)),
        ],
    };
    assert_eq!(normalize(&reg, 0).unwrap().ty, PrimitiveScaleType::Str);
    assert_eq!(normalize(&reg, 1).unwrap().ty, PrimitiveScaleType::Str);
    assert_eq!(normalize(&reg, 2).unwrap().ty, PrimitiveScaleType::Boolean);
}

#[test]
fn unresolved_reference_is_fatal() {
    let reg = Registry { entries: vec![entry(1, TypeShape::Composite(vec![field(2)]))] };
    assert_eq!(normalize(&reg, 5), Err(MetadataError::UnresolvedTypeReference(5)));
    assert_eq!(normalize(&reg, 2), Err(MetadataError::UnresolvedTypeReference(2)));
}

#[test]
fn cyclic_wrapper_chain_is_detected() {
    let reg = Registry {
        entries: vec![
            entry(0, TypeShape::Composite(vec![field(1)])),
            entry(1, TypeShape::Composite(vec![field(0)])),
        ],
    };
    match normalize(&reg, 0) {
        Err(MetadataError::CyclicType(_)) => (),
        other => panic!("expected a cyclic-type error, got {:?}", other),
    }
}

#[test]
fn empty_path_yields_an_empty_name() {
    let reg = Registry {
        entries: vec![entry(1, TypeShape::Composite(vec![field(2), field(3)]))],
    };
    let t = normalize(&reg, 1).unwrap();
    assert_eq!(t.ty, PrimitiveScaleType::Struct);
    assert_eq!(t.name.as_deref(), Some(""));
}
