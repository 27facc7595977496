use runtime_metadata::extensions::filter_extensions;
use runtime_metadata::model::{
    MetadataError, RawExtension, RawPrimitive, RegistryEntry, TypeShape,
};
use runtime_metadata::registry::Registry;

fn entry(id: u32, def: TypeShape) -> RegistryEntry {
    RegistryEntry { id, path: vec![], def }
}

fn ext(name: &str, ty: u32, additional: u32) -> RawExtension {
    RawExtension { name: name.to_string(), ty, additional }
}

#[test]
fn extension_with_empty_tuple_and_empty_composite_is_dropped() {
    let reg = Registry {
        entries: vec![
            entry(1, TypeShape::Tuple(vec![])),
            entry(2, TypeShape::Composite(vec![])),
        ],
    };
    let out = filter_extensions(&reg, &vec![ext("CheckGenesis", 1, 2)]).unwrap();
    assert!(out.is_empty());
}

#[test]
fn payload_sides_are_kept_independently() {
    let reg = Registry {
        entries: vec![
            entry(1, TypeShape::Tuple(vec![])),
            entry(2, TypeShape::Primitive(RawPrimitive::U32)),
            entry(3, TypeShape::Variant(vec![])),
            entry(4, TypeShape::Array(0, 2)),
            entry(5, TypeShape::Array(8, 2)),
        ],
    };
    let out = filter_extensions(
        &reg,
        &vec![
            ext("CheckNonce", 2, 1),
            ext("CheckSpecVersion", 1, 2),
            ext("CheckVoid", 3, 4),
            ext("CheckBytes", 5, 5),
        ],
    )
    .unwrap();
    assert_eq!(out.len(), 3);
    assert_eq!(out[0].name, "CheckNonce");
    assert_eq!(out[0].ty, Some(2));
    assert_eq!(out[0].additional, None);
    assert_eq!(out[1].name, "CheckSpecVersion");
    assert_eq!(out[1].ty, None);
    assert_eq!(out[1].additional, Some(2));
    assert_eq!(out[2].name, "CheckBytes");
    assert_eq!(out[2].ty, Some(5));
    assert_eq!(out[2].additional, Some(5));
}

#[test]
fn unresolved_extension_type_is_fatal() {
    let reg = Registry { entries: vec![entry(1, TypeShape::Tuple(vec![]))] };
    assert_eq!(
        filter_extensions(&reg, &vec![ext("CheckEra", 9, 1)]),
        Err(MetadataError::UnresolvedTypeReference(9))
    );
    assert_eq!(
        filter_extensions(&reg, &vec![ext("CheckEra", 1, 9)]),
        Err(MetadataError::UnresolvedTypeReference(9))
    );
}
