use frame_metadata::v14::{
    ExtrinsicMetadata, PalletCallMetadata, PalletMetadata, RuntimeMetadataV14,
    SignedExtensionMetadata,
};
use parity_scale_codec::Encode;
use scale_info::form::PortableForm;
use scale_info::{Path, PortableRegistry, PortableType, Type, TypeDef, TypeDefPrimitive};

use runtime_metadata::metadata_from_hex;
use runtime_metadata::model::{MetadataError, PrimitiveScaleType};

const MAGIC: [u8; 4] = [0x6d, 0x65, 0x74, 0x61];

fn prefixed(version: u8, body: &[u8]) -> Vec<u8> {
    let mut bytes = MAGIC.to_vec();
    bytes.push(version);
    bytes.extend_from_slice(body);
    bytes
}

#[test]
fn truncated_body_fails_as_malformed() {
    assert_eq!(metadata_from_hex(&prefixed(14, &[])), Err(MetadataError::MalformedMetadata));
    // A registry announcing one entry that never follows.
    assert_eq!(metadata_from_hex(&prefixed(14, &[0x04])), Err(MetadataError::MalformedMetadata));
}

#[test]
fn wrong_version_fails_before_the_body() {
    // The body bytes are nonsense on purpose: the version byte alone decides.
    assert_eq!(
        metadata_from_hex(&prefixed(13, &[0xff, 0xff])),
        Err(MetadataError::UnsupportedVersion(13))
    );
    assert_eq!(
        metadata_from_hex(&prefixed(15, &[0x00])),
        Err(MetadataError::UnsupportedVersion(15))
    );
}

#[test]
fn bad_magic_or_short_buffer_fails_as_malformed() {
    assert_eq!(
        metadata_from_hex(&[0x00, 0x01, 0x02, 0x03, 14, 0x00]),
        Err(MetadataError::MalformedMetadata)
    );
    assert_eq!(metadata_from_hex(&[0x6d, 0x65]), Err(MetadataError::MalformedMetadata));
    assert_eq!(metadata_from_hex(&[]), Err(MetadataError::MalformedMetadata));
}

fn u32_type() -> Type<PortableForm> {
    Type {
        path: Path { segments: vec![] },
        type_params: vec![],
        type_def: TypeDef::Primitive(TypeDefPrimitive::U32),
        docs: vec![],
    }
}

fn calls_type() -> Type<PortableForm> {
    Type {
        path: Path { segments: vec!["pallet_system".to_string(), "Call".to_string()] },
        type_params: vec![],
        type_def: TypeDef::Variant(scale_info::TypeDefVariant {
            variants: vec![scale_info::Variant {
                name: "remark".to_string(),
                fields: vec![scale_info::Field::new(Some("data".to_string()), 0.into(), None, vec![])],
                index: 0,
                docs: vec!["Log some data.".to_string()],
            }],
        }),
        docs: vec![],
    }
}

fn empty_tuple_type() -> Type<PortableForm> {
    Type {
        path: Path { segments: vec![] },
        type_params: vec![],
        type_def: TypeDef::Tuple(scale_info::TypeDefTuple { fields: vec![] }),
        docs: vec![],
    }
}

#[test]
fn full_tree_decodes_end_to_end() {
    let meta = RuntimeMetadataV14 {
        types: PortableRegistry {
            types: vec![
                PortableType { id: 0, ty: u32_type() },
                PortableType { id: 1, ty: calls_type() },
                PortableType { id: 2, ty: empty_tuple_type() },
            ],
        },
        pallets: vec![PalletMetadata::<PortableForm> {
            name: "System".to_string(),
            storage: None,
            calls: Some(PalletCallMetadata { ty: 1.into() }),
            event: None,
            constants: vec![],
            error: None,
            index: 0,
        }],
        extrinsic: ExtrinsicMetadata {
            ty: 0.into(),
            version: 4,
            signed_extensions: vec![SignedExtensionMetadata {
                identifier: "CheckNonce".to_string(),
                ty: 0.into(),
                additional_signed: 2.into(),
            }],
        },
        ty: 0.into(),
    };
    let bytes = prefixed(14, &meta.encode());
    let out = metadata_from_hex(&bytes).unwrap();

    // The type index covers exactly the registry's ids, in order.
    let ids: Vec<u32> = out.types.iter().map(|t| t.id).collect();
    assert_eq!(ids, vec![0, 1, 2]);
    assert_eq!(out.types[0].ty.ty, PrimitiveScaleType::U32);
    assert_eq!(out.types[1].ty.ty, PrimitiveScaleType::Enum);
    assert_eq!(out.types[1].ty.name.as_deref(), Some("pallet_system::Call"));
    let variants = out.types[1].ty.variants.as_ref().unwrap();
    assert_eq!(variants[0].name, "remark");
    assert_eq!(variants[0].fields.as_ref().unwrap()[0].field, 0);
    assert_eq!(out.types[2].ty.ty, PrimitiveScaleType::Tuple);
    assert!(out.types[2].ty.fields.as_ref().unwrap().is_empty());

    // The pallet projection.
    assert_eq!(out.pallets.len(), 1);
    assert_eq!(out.pallets[0].name, "System");
    assert_eq!(out.pallets[0].index, 0);
    let calls = out.pallets[0].calls.as_ref().unwrap();
    assert_eq!(calls.len(), 1);
    assert_eq!(calls[0].name, "remark");
    assert_eq!(calls[0].docs, vec!["Log some data.".to_string()]);

    // The signing section: the u32 side carries payload, the empty
    // tuple side does not.
    assert_eq!(out.signing.version, 4);
    assert_eq!(out.signing.extensions.len(), 1);
    assert_eq!(out.signing.extensions[0].name, "CheckNonce");
    assert_eq!(out.signing.extensions[0].ty, Some(0));
    assert_eq!(out.signing.extensions[0].additional, None);
}

#[test]
fn unresolved_reference_inside_tree_is_fatal() {
    let meta = RuntimeMetadataV14 {
        types: PortableRegistry { types: vec![PortableType { id: 0, ty: u32_type() }] },
        pallets: vec![PalletMetadata::<PortableForm> {
            name: "System".to_string(),
            storage: None,
            calls: Some(PalletCallMetadata { ty: 7.into() }),
            event: None,
            constants: vec![],
            error: None,
            index: 0,
        }],
        extrinsic: ExtrinsicMetadata { ty: 0.into(), version: 4, signed_extensions: vec![] },
        ty: 0.into(),
    };
    let bytes = prefixed(14, &meta.encode());
    assert_eq!(metadata_from_hex(&bytes), Err(MetadataError::UnresolvedTypeReference(7)));
}
