//! Data model: the raw decoded metadata tree and the normalized output
//! schema, together with their mathematical models (deep views).

use vstd::prelude::*;

verus! {

// ---------------------------------------------------------------------------
// Normalized type kinds
// ---------------------------------------------------------------------------

/// The closed vocabulary of normalized type kinds.
#[derive(Clone, Copy, PartialEq, Eq, Structural, Debug)]
pub enum PrimitiveScaleType {
    Boolean,
    Str,
    U8,
    U16,
    U32,
    U64,
    U128,
    U256,
    I8,
    I16,
    I32,
    I64,
    I128,
    I256,
    Compact,
    Enum,
    OptionType,
    ResultType,
    Tuple,
    List,
    Struct,
}

/// A primitive type as it appears in the raw type registry, before
/// normalization merges the character and string cases.
#[derive(Clone, Copy, PartialEq, Eq, Structural, Debug)]
pub enum RawPrimitive {
    Bool,
    Char,
    Str,
    U8,
    U16,
    U32,
    U64,
    U128,
    U256,
    I8,
    I16,
    I32,
    I64,
    I128,
    I256,
}

/// The storage hashers a runtime may declare for a storage map.
#[derive(Clone, Copy, PartialEq, Eq, Structural, Debug)]
pub enum HasherKind {
    Blake2_128,
    Blake2_256,
    Blake2_128Concat,
    Twox128,
    Twox256,
    Twox64Concat,
    Identity,
}

impl DeepView for HasherKind {
    type V = HasherKind;

    open spec fn deep_view(&self) -> HasherKind {
        *self
    }
}

// ---------------------------------------------------------------------------
// Errors
// ---------------------------------------------------------------------------

/// The pallet section whose declared type was expected to be a variant type.
#[derive(Clone, Copy, PartialEq, Eq, Structural, Debug)]
pub enum Section {
    Calls,
    Events,
    Errors,
}

/// Every way a decode attempt can fail.  The whole pipeline stops at the
/// first error; no partial output is ever produced.
#[derive(Clone, Copy, PartialEq, Eq, Structural, Debug)]
pub enum MetadataError {
    /// The byte buffer fails structural decoding (bad magic, truncation,
    /// an invalid tag or length prefix).
    MalformedMetadata,
    /// The version byte is not the supported one; carries the observed byte.
    UnsupportedVersion(u8),
    /// A referenced type id is absent from the registry.
    UnresolvedTypeReference(u32),
    /// A calls/events/errors section resolves to a non-variant definition.
    InvalidVariantShape(Section),
    /// A chain of single-field wrappers refers back to itself; carries the
    /// type id at which the walk gave up.
    CyclicType(u32),
}

// ---------------------------------------------------------------------------
// Raw registry model
// ---------------------------------------------------------------------------

/// A field of a composite or variant type: optional name plus the
/// referenced type id.  Also used for the fields of normalized output.
#[derive(Debug, PartialEq, Eq)]
pub struct Field {
    pub name: Option<String>,
    pub field: u32,
}

/// Mathematical model of a [`Field`].
#[verifier::ext_equal]
pub struct FieldM {
    pub name: Option<Seq<char>>,
    pub field: u32,
}

impl DeepView for Field {
    type V = FieldM;

    open spec fn deep_view(&self) -> FieldM {
        FieldM { name: self.name.deep_view(), field: self.field }
    }
}

/// One variant of a raw variant type.
#[derive(Debug, PartialEq, Eq)]
pub struct VariantDef {
    pub index: u8,
    pub name: String,
    pub fields: Vec<Field>,
    pub docs: Vec<String>,
}

/// Mathematical model of a [`VariantDef`].
#[verifier::ext_equal]
pub struct VariantDefM {
    pub index: u8,
    pub name: Seq<char>,
    pub fields: Seq<FieldM>,
    pub docs: Seq<Seq<char>>,
}

impl DeepView for VariantDef {
    type V = VariantDefM;

    open spec fn deep_view(&self) -> VariantDefM {
        VariantDefM {
            index: self.index,
            name: self.name.deep_view(),
            fields: self.fields.deep_view(),
            docs: self.docs.deep_view(),
        }
    }
}

/// A raw type definition from the registry, reduced to the parts the
/// normalizer reads.
#[derive(Debug, PartialEq, Eq)]
pub enum TypeShape {
    Primitive(RawPrimitive),
    /// The wrapped type id.
    Compact(u32),
    Variant(Vec<VariantDef>),
    /// Element count, element type id.
    Array(u32, u32),
    /// Element type id.
    Sequence(u32),
    /// The bit-order type id (the underlying storage representation
    /// surfaced by normalization).
    BitSequence(u32),
    Composite(Vec<Field>),
    Tuple(Vec<u32>),
}

/// Mathematical model of a [`TypeShape`].
#[verifier::ext_equal]
pub enum ShapeM {
    Primitive(RawPrimitive),
    Compact(u32),
    Variant(Seq<VariantDefM>),
    Array(u32, u32),
    Sequence(u32),
    BitSequence(u32),
    Composite(Seq<FieldM>),
    Tuple(Seq<u32>),
}

impl DeepView for TypeShape {
    type V = ShapeM;

    open spec fn deep_view(&self) -> ShapeM {
        match self {
            TypeShape::Primitive(p) => ShapeM::Primitive(*p),
            TypeShape::Compact(id) => ShapeM::Compact(*id),
            TypeShape::Variant(vs) => ShapeM::Variant(vs.deep_view()),
            TypeShape::Array(len, id) => ShapeM::Array(*len, *id),
            TypeShape::Sequence(id) => ShapeM::Sequence(*id),
            TypeShape::BitSequence(id) => ShapeM::BitSequence(*id),
            TypeShape::Composite(fs) => ShapeM::Composite(fs.deep_view()),
            TypeShape::Tuple(ids) => ShapeM::Tuple(ids.deep_view()),
        }
    }
}

/// One entry of the type registry: the type id, the namespace path
/// segments of the type, and its definition.
#[derive(Debug, PartialEq, Eq)]
pub struct RegistryEntry {
    pub id: u32,
    pub path: Vec<String>,
    pub def: TypeShape,
}

/// Mathematical model of a [`RegistryEntry`].
#[verifier::ext_equal]
pub struct EntryM {
    pub id: u32,
    pub path: Seq<Seq<char>>,
    pub def: ShapeM,
}

impl DeepView for RegistryEntry {
    type V = EntryM;

    open spec fn deep_view(&self) -> EntryM {
        EntryM { id: self.id, path: self.path.deep_view(), def: self.def.deep_view() }
    }
}

// ---------------------------------------------------------------------------
// Raw pallet and extrinsic model
// ---------------------------------------------------------------------------

/// A pallet constant: passed through unchanged by projection.
#[derive(Debug, PartialEq, Eq)]
pub struct Constant {
    pub name: String,
    pub ty: u32,
    pub value: Vec<u8>,
    pub docs: Vec<String>,
}

/// Mathematical model of a [`Constant`].
#[verifier::ext_equal]
pub struct ConstantM {
    pub name: Seq<char>,
    pub ty: u32,
    pub value: Seq<u8>,
    pub docs: Seq<Seq<char>>,
}

impl DeepView for Constant {
    type V = ConstantM;

    open spec fn deep_view(&self) -> ConstantM {
        ConstantM {
            name: self.name.deep_view(),
            ty: self.ty,
            value: self.value.deep_view(),
            docs: self.docs.deep_view(),
        }
    }
}

/// The declared shape of one raw storage entry: either a plain value type
/// or a map with its hashers, key type and value type.
#[derive(Debug, PartialEq, Eq)]
pub enum StorageKind {
    Plain(u32),
    MapKind(Vec<HasherKind>, u32, u32),
}

/// Mathematical model of a [`StorageKind`].
#[verifier::ext_equal]
pub enum StorageKindM {
    Plain(u32),
    MapKind(Seq<HasherKind>, u32, u32),
}

impl DeepView for StorageKind {
    type V = StorageKindM;

    open spec fn deep_view(&self) -> StorageKindM {
        match self {
            StorageKind::Plain(id) => StorageKindM::Plain(*id),
            StorageKind::MapKind(hs, k, v) => StorageKindM::MapKind(hs.deep_view(), *k, *v),
        }
    }
}

/// One raw storage entry of a pallet.
#[derive(Debug, PartialEq, Eq)]
pub struct RawStorageEntry {
    pub name: String,
    pub kind: StorageKind,
    pub docs: Vec<String>,
}

/// Mathematical model of a [`RawStorageEntry`].
#[verifier::ext_equal]
pub struct RawStorageEntryM {
    pub name: Seq<char>,
    pub kind: StorageKindM,
    pub docs: Seq<Seq<char>>,
}

impl DeepView for RawStorageEntry {
    type V = RawStorageEntryM;

    open spec fn deep_view(&self) -> RawStorageEntryM {
        RawStorageEntryM {
            name: self.name.deep_view(),
            kind: self.kind.deep_view(),
            docs: self.docs.deep_view(),
        }
    }
}

/// One raw pallet, reduced to the parts projection reads: the calls,
/// events and errors sections keep only their declared type ids.
#[derive(Debug, PartialEq, Eq)]
pub struct RawPallet {
    pub index: u8,
    pub name: String,
    pub constants: Vec<Constant>,
    pub storage: Option<Vec<RawStorageEntry>>,
    pub calls: Option<u32>,
    pub event: Option<u32>,
    pub error: Option<u32>,
}

/// Mathematical model of a [`RawPallet`].
#[verifier::ext_equal]
pub struct RawPalletM {
    pub index: u8,
    pub name: Seq<char>,
    pub constants: Seq<ConstantM>,
    pub storage: Option<Seq<RawStorageEntryM>>,
    pub calls: Option<u32>,
    pub event: Option<u32>,
    pub error: Option<u32>,
}

impl DeepView for RawPallet {
    type V = RawPalletM;

    open spec fn deep_view(&self) -> RawPalletM {
        RawPalletM {
            index: self.index,
            name: self.name.deep_view(),
            constants: self.constants.deep_view(),
            storage: self.storage.deep_view(),
            calls: self.calls,
            event: self.event,
            error: self.error,
        }
    }
}

/// One raw signing extension: its identifier, its own type id and the id
/// of its additional signed data type.
#[derive(Debug, PartialEq, Eq)]
pub struct RawExtension {
    pub name: String,
    pub ty: u32,
    pub additional: u32,
}

/// Mathematical model of a [`RawExtension`].
#[verifier::ext_equal]
pub struct RawExtensionM {
    pub name: Seq<char>,
    pub ty: u32,
    pub additional: u32,
}

impl DeepView for RawExtension {
    type V = RawExtensionM;

    open spec fn deep_view(&self) -> RawExtensionM {
        RawExtensionM { name: self.name.deep_view(), ty: self.ty, additional: self.additional }
    }
}

/// The raw extrinsic section: format version plus declared extensions.
#[derive(Debug, PartialEq, Eq)]
pub struct RawExtrinsic {
    pub version: u8,
    pub extensions: Vec<RawExtension>,
}

/// Mathematical model of a [`RawExtrinsic`].
#[verifier::ext_equal]
pub struct RawExtrinsicM {
    pub version: u8,
    pub extensions: Seq<RawExtensionM>,
}

impl DeepView for RawExtrinsic {
    type V = RawExtrinsicM;

    open spec fn deep_view(&self) -> RawExtrinsicM {
        RawExtrinsicM { version: self.version, extensions: self.extensions.deep_view() }
    }
}

} // verus!
