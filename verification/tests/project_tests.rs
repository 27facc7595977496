use runtime_metadata::model::{
    Constant, Field, HasherKind, MetadataError, RawPallet, RawStorageEntry, RegistryEntry, Section,
    StorageKind, TypeShape, VariantDef,
};
use runtime_metadata::project::project_pallet;
use runtime_metadata::registry::Registry;

fn entry(id: u32, def: TypeShape) -> RegistryEntry {
    RegistryEntry { id, path: vec![], def }
}

fn bare_pallet() -> RawPallet {
    RawPallet {
        index: 3,
        name: "Balances".to_string(),
        constants: vec![],
        storage: None,
        calls: None,
        event: None,
        error: None,
    }
}

#[test]
fn storage_map_entry_keeps_hashers_key_and_value() {
    let reg = Registry { entries: vec![] };
    let mut raw = bare_pallet();
    raw.storage = Some(vec![
        RawStorageEntry {
            name: "Accounts".to_string(),
            kind: StorageKind::MapKind(vec![HasherKind::Blake2_128Concat], 5, 10),
            docs: vec!["account map".to_string()],
        },
    ]);
    let p = project_pallet(&reg, &raw).unwrap();
    let storage = p.storage.unwrap();
    assert_eq!(storage.len(), 1);
    let item = &storage[0];
    assert_eq!(item.name, "Accounts");
    assert!(item.ty.is_none());
    let map = item.map.as_ref().unwrap();
    assert_eq!(map.hashers, vec!["Blake2_128Concat".to_string()]);
    assert_eq!(map.key, 5);
    assert_eq!(map.value, 10);
    assert_eq!(item.docs, vec!["account map".to_string()]);
}

#[test]
fn plain_storage_entry_keeps_scalar_type_only() {
    let reg = Registry { entries: vec![] };
    let mut raw = bare_pallet();
    raw.storage = Some(vec![
        RawStorageEntry {
            name: "TotalIssuance".to_string(),
            kind: StorageKind::Plain(4),
            docs: vec![],
        },
    ]);
    let p = project_pallet(&reg, &raw).unwrap();
    let storage = p.storage.unwrap();
    assert_eq!(storage[0].ty, Some(4));
    assert!(storage[0].map.is_none());
}

#[test]
fn non_variant_calls_section_is_rejected() {
    let reg = Registry { entries: vec![entry(2, TypeShape::Tuple(vec![]))] };
    let mut raw = bare_pallet();
    raw.calls = Some(2);
    assert_eq!(
        project_pallet(&reg, &raw),
        Err(MetadataError::InvalidVariantShape(Section::Calls))
    );
}

#[test]
fn non_variant_events_and_errors_sections_are_rejected() {
    let reg = Registry { entries: vec![entry(2, TypeShape::Sequence(4))] };
    let mut with_events = bare_pallet();
    with_events.event = Some(2);
    assert_eq!(
        project_pallet(&reg, &with_events),
        Err(MetadataError::InvalidVariantShape(Section::Events))
    );
    let mut with_errors = bare_pallet();
    with_errors.error = Some(2);
    assert_eq!(
        project_pallet(&reg, &with_errors),
        Err(MetadataError::InvalidVariantShape(Section::Errors))
    );
}

#[test]
fn unresolved_section_type_is_fatal() {
    let reg = Registry { entries: vec![] };
    let mut raw = bare_pallet();
    raw.calls = Some(9);
    assert_eq!(project_pallet(&reg, &raw), Err(MetadataError::UnresolvedTypeReference(9)));
}

#[test]
fn variant_sections_project_variants_in_order() {
    let reg = Registry {
        entries: vec![
            entry(
                1,
                TypeShape::Variant(vec![
                    VariantDef {
                        index: 0,
                        name: "transfer".to_string(),
                        fields: vec![Field { name: Some("dest".to_string()), field: 7 }],
                        docs: vec!["Transfer some balance.".to_string()],
                    },
                    VariantDef {
                        index: 1,
                        name: "set_balance".to_string(),
                        fields: vec![],
                        docs: vec![],
                    },
                ]),
            ),
        ],
    };
    let mut raw = bare_pallet();
    raw.calls = Some(1);
    raw.event = Some(1);
    raw.error = Some(1);
    let p = project_pallet(&reg, &raw).unwrap();
    let calls = p.calls.unwrap();
    assert_eq!(calls.len(), 2);
    assert_eq!(calls[0].index, 0);
    assert_eq!(calls[0].name, "transfer");
    assert_eq!(calls[0].fields.len(), 1);
    assert_eq!(calls[0].fields[0].field, 7);
    assert_eq!(calls[0].docs, vec!["Transfer some balance.".to_string()]);
    assert_eq!(calls[1].name, "set_balance");
    assert!(calls[1].fields.is_empty());
    let events = p.events.unwrap();
    assert_eq!(events.len(), 2);
    assert_eq!(events[1].index, 1);
    let errors = p.errors.unwrap();
    assert_eq!(errors.len(), 2);
    assert_eq!(errors[0].name, "transfer");
}

#[test]
fn constants_pass_through_unchanged() {
    let reg = Registry { entries: vec![] };
    let mut raw = bare_pallet();
    raw.constants = vec![
        Constant {
            name: "ExistentialDeposit".to_string(),
            ty: 6,
            value: vec![0x10, 0x27, 0x00, 0x00],
            docs: vec!["The minimum balance.".to_string()],
        },
    ];
    let p = project_pallet(&reg, &raw).unwrap();
    assert_eq!(p.index, 3);
    assert_eq!(p.name, "Balances");
    assert_eq!(p.constants.len(), 1);
    assert_eq!(p.constants[0].name, "ExistentialDeposit");
    assert_eq!(p.constants[0].ty, 6);
    assert_eq!(p.constants[0].value, vec![0x10, 0x27, 0x00, 0x00]);
    assert_eq!(p.constants[0].docs, vec!["The minimum balance.".to_string()]);
}
