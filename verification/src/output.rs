//! The normalized output schema: what a successful decode hands to the
//! caller, together with its mathematical models.

use vstd::prelude::*;

use crate::model::{Field, FieldM, PrimitiveScaleType};

verus! {

/// One variant of a normalized enum type.  `fields` is absent when the
/// variant carries no data.
#[derive(Debug, PartialEq, Eq)]
pub struct Variant {
    pub index: u8,
    pub name: String,
    pub fields: Option<Vec<Field>>,
}

/// Mathematical model of a [`Variant`].
#[verifier::ext_equal]
pub struct VariantM {
    pub index: u8,
    pub name: Seq<char>,
    pub fields: Option<Seq<FieldM>>,
}

impl DeepView for Variant {
    type V = VariantM;

    open spec fn deep_view(&self) -> VariantM {
        VariantM { index: self.index, name: self.name.deep_view(), fields: self.fields.deep_view() }
    }
}

/// A normalized type: a kind from the closed vocabulary plus the
/// kind-dependent payload fields.
#[derive(Debug, PartialEq, Eq)]
pub struct ScaleType {
    pub ty: PrimitiveScaleType,
    pub variants: Option<Vec<Variant>>,
    pub store: Option<u32>,
    pub length: Option<u32>,
    pub fields: Option<Vec<Field>>,
    pub name: Option<String>,
}

/// Mathematical model of a [`ScaleType`].
#[verifier::ext_equal]
pub struct ScaleTypeM {
    pub ty: PrimitiveScaleType,
    pub variants: Option<Seq<VariantM>>,
    pub store: Option<u32>,
    pub length: Option<u32>,
    pub fields: Option<Seq<FieldM>>,
    pub name: Option<Seq<char>>,
}

impl DeepView for ScaleType {
    type V = ScaleTypeM;

    open spec fn deep_view(&self) -> ScaleTypeM {
        ScaleTypeM {
            ty: self.ty,
            variants: self.variants.deep_view(),
            store: self.store,
            length: self.length,
            fields: self.fields.deep_view(),
            name: self.name.deep_view(),
        }
    }
}

/// One entry of the normalized type index.
#[derive(Debug, PartialEq, Eq)]
pub struct TypeEntry {
    pub id: u32,
    pub ty: ScaleType,
}

/// Mathematical model of a [`TypeEntry`].
#[verifier::ext_equal]
pub struct TypeEntryM {
    pub id: u32,
    pub ty: ScaleTypeM,
}

impl DeepView for TypeEntry {
    type V = TypeEntryM;

    open spec fn deep_view(&self) -> TypeEntryM {
        TypeEntryM { id: self.id, ty: self.ty.deep_view() }
    }
}

/// The key description of a storage map: hasher names in declared order,
/// key type id and value type id.
#[derive(Debug, PartialEq, Eq)]
pub struct MapDef {
    pub hashers: Vec<String>,
    pub key: u32,
    pub value: u32,
}

/// Mathematical model of a [`MapDef`].
#[verifier::ext_equal]
pub struct MapDefM {
    pub hashers: Seq<Seq<char>>,
    pub key: u32,
    pub value: u32,
}

impl DeepView for MapDef {
    type V = MapDefM;

    open spec fn deep_view(&self) -> MapDefM {
        MapDefM { hashers: self.hashers.deep_view(), key: self.key, value: self.value }
    }
}

/// One projected storage entry: exactly one of `ty` (plain value) and
/// `map` (keyed map) is present.
#[derive(Debug, PartialEq, Eq)]
pub struct StorageItem {
    pub name: String,
    pub ty: Option<u32>,
    pub map: Option<MapDef>,
    pub docs: Vec<String>,
}

/// Mathematical model of a [`StorageItem`].
#[verifier::ext_equal]
pub struct StorageItemM {
    pub name: Seq<char>,
    pub ty: Option<u32>,
    pub map: Option<MapDefM>,
    pub docs: Seq<Seq<char>>,
}

impl DeepView for StorageItem {
    type V = StorageItemM;

    open spec fn deep_view(&self) -> StorageItemM {
        StorageItemM {
            name: self.name.deep_view(),
            ty: self.ty,
            map: self.map.deep_view(),
            docs: self.docs.deep_view(),
        }
    }
}

/// One projected event variant.
#[derive(Debug, PartialEq, Eq)]
pub struct Event {
    pub index: u8,
    pub name: String,
    pub fields: Vec<Field>,
    pub docs: Vec<String>,
}

/// Mathematical model of an [`Event`].
#[verifier::ext_equal]
pub struct EventM {
    pub index: u8,
    pub name: Seq<char>,
    pub fields: Seq<FieldM>,
    pub docs: Seq<Seq<char>>,
}

impl DeepView for Event {
    type V = EventM;

    open spec fn deep_view(&self) -> EventM {
        EventM {
            index: self.index,
            name: self.name.deep_view(),
            fields: self.fields.deep_view(),
            docs: self.docs.deep_view(),
        }
    }
}

/// One projected error variant.
#[derive(Debug, PartialEq, Eq)]
pub struct ErrorVariant {
    pub index: u8,
    pub name: String,
    pub docs: Vec<String>,
}

/// Mathematical model of an [`ErrorVariant`].
#[verifier::ext_equal]
pub struct ErrorVariantM {
    pub index: u8,
    pub name: Seq<char>,
    pub docs: Seq<Seq<char>>,
}

impl DeepView for ErrorVariant {
    type V = ErrorVariantM;

    open spec fn deep_view(&self) -> ErrorVariantM {
        ErrorVariantM { index: self.index, name: self.name.deep_view(), docs: self.docs.deep_view() }
    }
}

/// One projected call variant.
#[derive(Debug, PartialEq, Eq)]
pub struct Call {
    pub index: u8,
    pub name: String,
    pub fields: Vec<Field>,
    pub docs: Vec<String>,
}

/// Mathematical model of a [`Call`].
#[verifier::ext_equal]
pub struct CallM {
    pub index: u8,
    pub name: Seq<char>,
    pub fields: Seq<FieldM>,
    pub docs: Seq<Seq<char>>,
}

impl DeepView for Call {
    type V = CallM;

    open spec fn deep_view(&self) -> CallM {
        CallM {
            index: self.index,
            name: self.name.deep_view(),
            fields: self.fields.deep_view(),
            docs: self.docs.deep_view(),
        }
    }
}

/// One projected pallet.
#[derive(Debug, PartialEq, Eq)]
pub struct Pallet {
    pub index: u8,
    pub name: String,
    pub constants: Vec<crate::model::Constant>,
    pub storage: Option<Vec<StorageItem>>,
    pub errors: Option<Vec<ErrorVariant>>,
    pub events: Option<Vec<Event>>,
    pub calls: Option<Vec<Call>>,
}

/// Mathematical model of a [`Pallet`].
#[verifier::ext_equal]
pub struct PalletM {
    pub index: u8,
    pub name: Seq<char>,
    pub constants: Seq<crate::model::ConstantM>,
    pub storage: Option<Seq<StorageItemM>>,
    pub errors: Option<Seq<ErrorVariantM>>,
    pub events: Option<Seq<EventM>>,
    pub calls: Option<Seq<CallM>>,
}

impl DeepView for Pallet {
    type V = PalletM;

    open spec fn deep_view(&self) -> PalletM {
        PalletM {
            index: self.index,
            name: self.name.deep_view(),
            constants: self.constants.deep_view(),
            storage: self.storage.deep_view(),
            errors: self.errors.deep_view(),
            events: self.events.deep_view(),
            calls: self.calls.deep_view(),
        }
    }
}

/// One surviving signing extension.  At least one of `ty` and
/// `additional` is present; an extension with neither is dropped.
#[derive(Debug, PartialEq, Eq)]
pub struct SignedExtension {
    pub name: String,
    pub ty: Option<u32>,
    pub additional: Option<u32>,
}

/// Mathematical model of a [`SignedExtension`].
#[verifier::ext_equal]
pub struct SignedExtensionM {
    pub name: Seq<char>,
    pub ty: Option<u32>,
    pub additional: Option<u32>,
}

impl DeepView for SignedExtension {
    type V = SignedExtensionM;

    open spec fn deep_view(&self) -> SignedExtensionM {
        SignedExtensionM { name: self.name.deep_view(), ty: self.ty, additional: self.additional }
    }
}

/// The filtered signing section: the extrinsic format version and the
/// extensions that carry payload.
#[derive(Debug, PartialEq, Eq)]
pub struct Extensions {
    pub version: u8,
    pub extensions: Vec<SignedExtension>,
}

/// Mathematical model of an [`Extensions`].
#[verifier::ext_equal]
pub struct ExtensionsM {
    pub version: u8,
    pub extensions: Seq<SignedExtensionM>,
}

impl DeepView for Extensions {
    type V = ExtensionsM;

    open spec fn deep_view(&self) -> ExtensionsM {
        ExtensionsM { version: self.version, extensions: self.extensions.deep_view() }
    }
}

/// The complete normalized metadata.
#[derive(Debug, PartialEq, Eq)]
pub struct Metadata {
    pub pallets: Vec<Pallet>,
    pub types: Vec<TypeEntry>,
    pub signing: Extensions,
}

/// Mathematical model of a [`Metadata`].
#[verifier::ext_equal]
pub struct MetadataM {
    pub pallets: Seq<PalletM>,
    pub types: Seq<TypeEntryM>,
    pub signing: ExtensionsM,
}

impl DeepView for Metadata {
    type V = MetadataM;

    open spec fn deep_view(&self) -> MetadataM {
        MetadataM {
            pallets: self.pallets.deep_view(),
            types: self.types.deep_view(),
            signing: self.signing.deep_view(),
        }
    }
}

} // verus!
