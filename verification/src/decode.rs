//! The binary decoder's trusted boundary.  The outside structured-binary
//! decoder (frame-metadata's SCALE `Decode` implementation) parses the
//! version-specific body; the converters below move the decoded tree,
//! field by field, into the library's own plain-value model.  Everything
//! in this module is trusted; everything downstream of [`decode_v14`] is
//! verified against its contract.
//!
//! The non-generic outside types are declared to Verus directly.  The
//! generic ones (parameterized over scale-info's `Form` trait, which
//! cannot stand in a declaration here) are carried through opaque
//! single-field structs instead.

use vstd::prelude::*;

use scale_info::{TypeDef, TypeDefPrimitive};

use crate::model::{
    Constant, Field, HasherKind, RawExtension, RawExtrinsic, RawPallet, RawPrimitive,
    RawStorageEntry, RegistryEntry, StorageKind, TypeShape, VariantDef,
};
use crate::registry::{RawMetadata, RawMetadataM, Registry};

verus! {

// ---------------------------------------------------------------------------
// Declarations of the outside types that the converters take
// ---------------------------------------------------------------------------

#[verifier::external_type_specification]
#[verifier::external_body]
pub struct ExRuntimeMetadataV14(frame_metadata::v14::RuntimeMetadataV14);

#[verifier::external_type_specification]
#[verifier::external_body]
pub struct ExStorageHasher(frame_metadata::v14::StorageHasher);

#[verifier::external_type_specification]
#[verifier::external_body]
pub struct ExPortableRegistry(scale_info::PortableRegistry);

#[verifier::external_type_specification]
#[verifier::external_body]
pub struct ExPortableType(scale_info::PortableType);

#[verifier::external_type_specification]
#[verifier::external_body]
pub struct ExTypeDefPrimitive(scale_info::TypeDefPrimitive);

/// An opaque carrier for one decoded type definition.
#[verifier::external_body]
struct TypeDefNode(scale_info::TypeDef<scale_info::form::PortableForm>);

/// An opaque carrier for one decoded composite type.
#[verifier::external_body]
struct CompositeNode(scale_info::TypeDefComposite<scale_info::form::PortableForm>);

/// An opaque carrier for one decoded variant type.
#[verifier::external_body]
struct VariantTypeNode(scale_info::TypeDefVariant<scale_info::form::PortableForm>);

/// An opaque carrier for one decoded pallet.
#[verifier::external_body]
struct PalletNode(frame_metadata::v14::PalletMetadata<scale_info::form::PortableForm>);

/// An opaque carrier for one decoded storage entry.
#[verifier::external_body]
struct StorageEntryNode(frame_metadata::v14::StorageEntryMetadata<scale_info::form::PortableForm>);

// ---------------------------------------------------------------------------
// Converters: outside tree to library model, moving fields only
// ---------------------------------------------------------------------------

/// Moves a primitive tag across, one arm per outside variant.
#[verifier::external_body]
fn conv_primitive(p: &TypeDefPrimitive) -> RawPrimitive {
    match p {
        TypeDefPrimitive::Bool => RawPrimitive::Bool,
        TypeDefPrimitive::Char => RawPrimitive::Char,
        TypeDefPrimitive::Str => RawPrimitive::Str,
        TypeDefPrimitive::U8 => RawPrimitive::U8, TypeDefPrimitive::U16 => RawPrimitive::U16,
        TypeDefPrimitive::U32 => RawPrimitive::U32, TypeDefPrimitive::U64 => RawPrimitive::U64,
        TypeDefPrimitive::U128 => RawPrimitive::U128, TypeDefPrimitive::U256 => RawPrimitive::U256,
        TypeDefPrimitive::I8 => RawPrimitive::I8, TypeDefPrimitive::I16 => RawPrimitive::I16,
        TypeDefPrimitive::I32 => RawPrimitive::I32, TypeDefPrimitive::I64 => RawPrimitive::I64,
        TypeDefPrimitive::I128 => RawPrimitive::I128, TypeDefPrimitive::I256 => RawPrimitive::I256,
    }
}

/// Moves a composite's field list across: each field keeps its optional
/// name and its referenced id.
#[verifier::external_body]
fn conv_composite(c: CompositeNode) -> Vec<Field> {
    c.0.fields.into_iter().map(|f| Field { name: f.name, field: f.ty.id }).collect()
}

/// Moves a variant type's variant list across: index, name, fields and
/// docs, field by field.
#[verifier::external_body]
fn conv_variants(v: VariantTypeNode) -> Vec<VariantDef> {
    v.0.variants.into_iter().map(
        |vr| VariantDef {
            index: vr.index,
            name: vr.name,
            fields: vr.fields.into_iter().map(|f| Field { name: f.name, field: f.ty.id }).collect(),
            docs: vr.docs,
        },
    ).collect()
}

/// Moves one type definition across, one arm per outside variant; a
/// composite's fields keep their optional names and referenced ids.
#[verifier::external_body]
fn conv_typedef(d: TypeDefNode) -> TypeShape {
    match d.0 {
        TypeDef::Composite(c) => TypeShape::Composite(conv_composite(CompositeNode(c))),
        TypeDef::Variant(v) => TypeShape::Variant(conv_variants(VariantTypeNode(v))),
        TypeDef::Sequence(s) => TypeShape::Sequence(s.type_param.id),
        TypeDef::Array(a) => TypeShape::Array(a.len, a.type_param.id),
        TypeDef::Tuple(t) => TypeShape::Tuple(t.fields.iter().map(|f| f.id).collect()),
        TypeDef::Primitive(p) => TypeShape::Primitive(conv_primitive(&p)),
        TypeDef::Compact(c) => TypeShape::Compact(c.type_param.id),
        TypeDef::BitSequence(b) => TypeShape::BitSequence(b.bit_order_type.id),
    }
}

/// Moves one registry entry across: id, path segments, definition.
#[verifier::external_body]
fn conv_entry(t: scale_info::PortableType) -> RegistryEntry {
    RegistryEntry { id: t.id, path: t.ty.path.segments, def: conv_typedef(TypeDefNode(t.ty.type_def)) }
}

/// Moves the type registry across, in declaration order.
#[verifier::external_body]
fn conv_registry(r: scale_info::PortableRegistry) -> Registry {
    Registry { entries: r.types.into_iter().map(conv_entry).collect() }
}

/// Moves one storage hasher tag across, one arm per outside variant.
#[verifier::external_body]
fn conv_hasher(h: &frame_metadata::v14::StorageHasher) -> HasherKind {
    match h {
        frame_metadata::v14::StorageHasher::Blake2_128 => HasherKind::Blake2_128,
        frame_metadata::v14::StorageHasher::Blake2_256 => HasherKind::Blake2_256,
        frame_metadata::v14::StorageHasher::Blake2_128Concat => HasherKind::Blake2_128Concat,
        frame_metadata::v14::StorageHasher::Twox128 => HasherKind::Twox128,
        frame_metadata::v14::StorageHasher::Twox256 => HasherKind::Twox256,
        frame_metadata::v14::StorageHasher::Twox64Concat => HasherKind::Twox64Concat,
        frame_metadata::v14::StorageHasher::Identity => HasherKind::Identity,
    }
}

/// Moves one storage entry across: the plain and map shapes, one arm each.
#[verifier::external_body]
fn conv_storage_entry(e: StorageEntryNode) -> RawStorageEntry {
    let kind = match e.0.ty {
        frame_metadata::v14::StorageEntryType::Plain(t) => StorageKind::Plain(t.id),
        frame_metadata::v14::StorageEntryType::Map { hashers, key, value } => StorageKind::MapKind(
            hashers.iter().map(conv_hasher).collect(),
            key.id,
            value.id,
        ),
    };
    RawStorageEntry { name: e.0.name, kind, docs: e.0.docs }
}

/// Moves one pallet across; a constant keeps its name, type id, value
/// bytes and docs; the calls/events/errors sections keep their type ids.
#[verifier::external_body]
fn conv_pallet(p: PalletNode) -> RawPallet {
    RawPallet {
        index: p.0.index,
        name: p.0.name,
        constants: p.0.constants.into_iter().map(
            |c| Constant { name: c.name, ty: c.ty.id, value: c.value, docs: c.docs },
        ).collect(),
        storage: p.0.storage.map(
            |s| s.entries.into_iter().map(|e| conv_storage_entry(StorageEntryNode(e))).collect(),
        ),
        calls: p.0.calls.map(|c| c.ty.id),
        event: p.0.event.map(|e| e.ty.id),
        error: p.0.error.map(|e| e.ty.id),
    }
}

/// Moves the whole decoded tree across; a signing extension keeps its
/// identifier and its two type ids.
#[verifier::external_body]
fn conv_v14(m: frame_metadata::v14::RuntimeMetadataV14) -> RawMetadata {
    RawMetadata {
        types: conv_registry(m.types),
        pallets: m.pallets.into_iter().map(|p| conv_pallet(PalletNode(p))).collect(),
        extrinsic: RawExtrinsic {
            version: m.extrinsic.version,
            extensions: m.extrinsic.signed_extensions.into_iter().map(
                |x| RawExtension { name: x.identifier, ty: x.ty.id, additional: x.additional_signed.id },
            ).collect(),
        },
    }
}

// ---------------------------------------------------------------------------
// The decode boundary itself
// ---------------------------------------------------------------------------

/// What the version-specific body bytes decode to: the decoded tree in
/// the library's model, or nothing when the bytes are not a valid
/// encoding.  Decoding is a function of the bytes alone.
pub uninterp spec fn v14_model(body: Seq<u8>) -> Option<RawMetadataM>;

/// Relies on frame-metadata's derived parity-scale-codec `Decode` for
/// `RuntimeMetadataV14`: a deterministic structural parse of the body
/// bytes that fails exactly on inputs that are not a valid encoding.
/// Trailing bytes after a complete tree are ignored, as SCALE
/// decoding always does.
#[verifier::external_body]
pub(crate) fn decode_v14(body: &[u8]) -> (r: Option<RawMetadata>)
    ensures
        r.deep_view() == v14_model(body@),
{
    let mut input: &[u8] = body;
    match <frame_metadata::v14::RuntimeMetadataV14 as parity_scale_codec::Decode>::decode(
        &mut input,
    ) {
        Ok(m) => Some(conv_v14(m)),
        Err(_) => None,
    }
}

} // verus!
