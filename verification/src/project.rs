//! The pallet projector: resolves each pallet's calls/events/errors enum
//! types into normalized lists and its storage section into per-entry
//! records distinguishing plain values from keyed maps.

use vstd::prelude::*;
use vstd::string::StringExecFns;

use crate::model::{
    Constant, ConstantM, HasherKind, MetadataError, RawPallet, RawPalletM, RawStorageEntry,
    RawStorageEntryM, Section, StorageKind, StorageKindM, TypeShape, VariantDef, VariantDefM,
};
use crate::normalize::{copy_fields, copy_strings, res_m};
use crate::output::{
    Call, CallM, ErrorVariant, ErrorVariantM, Event, EventM, MapDef, MapDefM, Pallet, PalletM,
    StorageItem, StorageItemM,
};
use crate::registry::{resolve_spec, Registry};

verus! {

// ---------------------------------------------------------------------------
// Storage
// ---------------------------------------------------------------------------

/// The explicit name table for storage hashers: output stability does not
/// depend on any debug representation.
pub open spec fn hasher_name(h: HasherKind) -> Seq<char> {
    match h {
        HasherKind::Blake2_128 => "Blake2_128"@,
        HasherKind::Blake2_256 => "Blake2_256"@,
        HasherKind::Blake2_128Concat => "Blake2_128Concat"@,
        HasherKind::Twox128 => "Twox128"@,
        HasherKind::Twox256 => "Twox256"@,
        HasherKind::Twox64Concat => "Twox64Concat"@,
        HasherKind::Identity => "Identity"@,
    }
}

/// The hasher names of a storage map, in declared order.
pub open spec fn hasher_names_m(hs: Seq<HasherKind>) -> Seq<Seq<char>> {
    Seq::new(hs.len(), |i: int| hasher_name(hs[i]))
}

/// Projection of one raw storage entry: exactly one of the scalar type
/// and the map description is present, matching the declared shape.
pub open spec fn storage_item_m(e: RawStorageEntryM) -> StorageItemM {
    match e.kind {
        StorageKindM::Plain(id) => StorageItemM {
            name: e.name,
            ty: Some(id),
            map: None,
            docs: e.docs,
        },
        StorageKindM::MapKind(hs, key, value) => StorageItemM {
            name: e.name,
            ty: None,
            map: Some(MapDefM { hashers: hasher_names_m(hs), key, value }),
            docs: e.docs,
        },
    }
}

/// Projection of a whole storage section, in declared order.
pub open spec fn storage_items_m(es: Seq<RawStorageEntryM>) -> Seq<StorageItemM> {
    Seq::new(es.len(), |i: int| storage_item_m(es[i]))
}

/// The executable hasher name table.
fn hasher_name_exec(h: HasherKind) -> (r: String)
    ensures
        r@ == hasher_name(h),
{
    match h {
        HasherKind::Blake2_128 => String::from_str("Blake2_128"),
        HasherKind::Blake2_256 => String::from_str("Blake2_256"),
        HasherKind::Blake2_128Concat => String::from_str("Blake2_128Concat"),
        HasherKind::Twox128 => String::from_str("Twox128"),
        HasherKind::Twox256 => String::from_str("Twox256"),
        HasherKind::Twox64Concat => String::from_str("Twox64Concat"),
        HasherKind::Identity => String::from_str("Identity"),
    }
}

/// Builds the hasher name list of a storage map.
fn build_hasher_names(hs: &Vec<HasherKind>) -> (r: Vec<String>)
    ensures
        r.deep_view() == hasher_names_m(hs@),
{
    let mut r: Vec<String> = Vec::new();
    let n = hs.len();
    for i in 0..n
        invariant
            n == hs.len(),
            r@.len() == i,
            forall|j: int| 0 <= j < i ==> r@[j].deep_view() == hasher_names_m(hs@)[j],
    {
        r.push(hasher_name_exec(hs[i]));
    }
    proof {
        assert(r.deep_view() =~= hasher_names_m(hs@));
    }
    r
}

/// Projects one raw storage entry.
fn build_storage_item(e: &RawStorageEntry) -> (r: StorageItem)
    ensures
        r.deep_view() == storage_item_m(e.deep_view()),
{
    match &e.kind {
        StorageKind::Plain(id) => StorageItem {
            name: e.name.clone(),
            ty: Some(*id),
            map: None,
            docs: copy_strings(&e.docs),
        },
        StorageKind::MapKind(hs, key, value) => StorageItem {
            name: e.name.clone(),
            ty: None,
            map: Some(MapDef { hashers: build_hasher_names(hs), key: *key, value: *value }),
            docs: copy_strings(&e.docs),
        },
    }
}

/// Projects a pallet's storage section.
pub fn build_storage(es: &Vec<RawStorageEntry>) -> (r: Vec<StorageItem>)
    ensures
        r.deep_view() == storage_items_m(es.deep_view()),
{
    let mut r: Vec<StorageItem> = Vec::new();
    let n = es.len();
    for i in 0..n
        invariant
            n == es.len(),
            r@.len() == i,
            forall|j: int| 0 <= j < i ==> r@[j].deep_view() == storage_items_m(es.deep_view())[j],
    {
        let item = build_storage_item(&es[i]);
        proof {
            assert(item.deep_view() == storage_items_m(es.deep_view())[i as int]);
        }
        r.push(item);
    }
    proof {
        assert(r.deep_view() =~= storage_items_m(es.deep_view()));
    }
    r
}

// ---------------------------------------------------------------------------
// Constants
// ---------------------------------------------------------------------------

/// Copies a byte string.
fn copy_bytes(v: &Vec<u8>) -> (r: Vec<u8>)
    ensures
        r@ == v@,
{
    let mut r: Vec<u8> = Vec::new();
    let n = v.len();
    for i in 0..n
        invariant
            n == v.len(),
            r@ =~= v@.take(i as int),
    {
        r.push(v[i]);
        proof {
            assert(r@ =~= v@.take(i + 1));
        }
    }
    proof {
        assert(v@.take(n as int) =~= v@);
    }
    r
}

/// Copies one constant: projection passes constants through unchanged,
/// the value bytes uninterpreted.
fn copy_constant(c: &Constant) -> (r: Constant)
    ensures
        r.deep_view() == c.deep_view(),
{
    Constant {
        name: c.name.clone(),
        ty: c.ty,
        value: copy_bytes(&c.value),
        docs: copy_strings(&c.docs),
    }
}

/// Copies a pallet's constant list.
pub fn copy_constants(cs: &Vec<Constant>) -> (r: Vec<Constant>)
    ensures
        r.deep_view() == cs.deep_view(),
{
    let mut r: Vec<Constant> = Vec::new();
    let n = cs.len();
    for i in 0..n
        invariant
            n == cs.len(),
            r@.len() == i,
            forall|j: int| 0 <= j < i ==> r@[j].deep_view() == cs.deep_view()[j],
    {
        let c = copy_constant(&cs[i]);
        r.push(c);
    }
    proof {
        assert(r.deep_view() =~= cs.deep_view());
    }
    r
}

// ---------------------------------------------------------------------------
// Calls, events, errors
// ---------------------------------------------------------------------------

/// One projected event variant.
pub open spec fn event_m(v: VariantDefM) -> EventM {
    EventM { index: v.index, name: v.name, fields: v.fields, docs: v.docs }
}

/// One projected call variant.
pub open spec fn call_m(v: VariantDefM) -> CallM {
    CallM { index: v.index, name: v.name, fields: v.fields, docs: v.docs }
}

/// One projected error variant.
pub open spec fn error_m(v: VariantDefM) -> ErrorVariantM {
    ErrorVariantM { index: v.index, name: v.name, docs: v.docs }
}

/// An events section: its type must resolve to a variant definition,
/// whose variants are projected in order.
pub open spec fn events_spec(reg: Seq<crate::model::EntryM>, id: u32) -> Result<
    Seq<EventM>,
    MetadataError,
> {
    match resolve_spec(reg, id) {
        None => Err(MetadataError::UnresolvedTypeReference(id)),
        Some(e) => match e.def {
            crate::model::ShapeM::Variant(vs) => Ok(Seq::new(vs.len(), |i: int| event_m(vs[i]))),
            _ => Err(MetadataError::InvalidVariantShape(Section::Events)),
        },
    }
}

/// A calls section, as [`events_spec`].
pub open spec fn calls_spec(reg: Seq<crate::model::EntryM>, id: u32) -> Result<
    Seq<CallM>,
    MetadataError,
> {
    match resolve_spec(reg, id) {
        None => Err(MetadataError::UnresolvedTypeReference(id)),
        Some(e) => match e.def {
            crate::model::ShapeM::Variant(vs) => Ok(Seq::new(vs.len(), |i: int| call_m(vs[i]))),
            _ => Err(MetadataError::InvalidVariantShape(Section::Calls)),
        },
    }
}

/// An errors section, as [`events_spec`] but without fields.
pub open spec fn errors_spec(reg: Seq<crate::model::EntryM>, id: u32) -> Result<
    Seq<ErrorVariantM>,
    MetadataError,
> {
    match resolve_spec(reg, id) {
        None => Err(MetadataError::UnresolvedTypeReference(id)),
        Some(e) => match e.def {
            crate::model::ShapeM::Variant(vs) => Ok(Seq::new(vs.len(), |i: int| error_m(vs[i]))),
            _ => Err(MetadataError::InvalidVariantShape(Section::Errors)),
        },
    }
}

/// A calls section whose declared type resolves to anything but a
/// variant definition is rejected as an invalid variant shape.
pub proof fn lemma_non_variant_calls_rejected(reg: Seq<crate::model::EntryM>, id: u32)
    requires
        resolve_spec(reg, id) is Some,
        !(resolve_spec(reg, id)->Some_0.def matches crate::model::ShapeM::Variant(_)),
    ensures
        calls_spec(reg, id) == Err::<Seq<CallM>, MetadataError>(
            MetadataError::InvalidVariantShape(Section::Calls),
        ),
{
}

/// Projects an events section.
pub fn build_events(reg: &Registry, id: u32) -> (r: Result<Vec<Event>, MetadataError>)
    ensures
        res_m(r) == events_spec(reg.deep_view(), id),
{
    match reg.resolve(id) {
        None => Err(MetadataError::UnresolvedTypeReference(id)),
        Some(entry) => match &entry.def {
            TypeShape::Variant(vs) => {
                let ghost vsm = entry.deep_view().def->Variant_0;
                let mut r: Vec<Event> = Vec::new();
                let n = vs.len();
                for i in 0..n
                    invariant
                        n == vs.len(),
                        vsm == vs.deep_view(),
                        r@.len() == i,
                        forall|j: int| 0 <= j < i ==> r@[j].deep_view() == event_m(vsm[j]),
                {
                    let v = &vs[i];
                    let e = Event {
                        index: v.index,
                        name: v.name.clone(),
                        fields: copy_fields(&v.fields),
                        docs: copy_strings(&v.docs),
                    };
                    r.push(e);
                }
                proof {
                    assert(r.deep_view() =~= events_spec(reg.deep_view(), id)->Ok_0);
                }
                Ok(r)
            },
            _ => Err(MetadataError::InvalidVariantShape(Section::Events)),
        },
    }
}

/// Projects a calls section.
pub fn build_calls(reg: &Registry, id: u32) -> (r: Result<Vec<Call>, MetadataError>)
    ensures
        res_m(r) == calls_spec(reg.deep_view(), id),
{
    match reg.resolve(id) {
        None => Err(MetadataError::UnresolvedTypeReference(id)),
        Some(entry) => match &entry.def {
            TypeShape::Variant(vs) => {
                let ghost vsm = entry.deep_view().def->Variant_0;
                let mut r: Vec<Call> = Vec::new();
                let n = vs.len();
                for i in 0..n
                    invariant
                        n == vs.len(),
                        vsm == vs.deep_view(),
                        r@.len() == i,
                        forall|j: int| 0 <= j < i ==> r@[j].deep_view() == call_m(vsm[j]),
                {
                    let v = &vs[i];
                    let c = Call {
                        index: v.index,
                        name: v.name.clone(),
                        fields: copy_fields(&v.fields),
                        docs: copy_strings(&v.docs),
                    };
                    r.push(c);
                }
                proof {
                    assert(r.deep_view() =~= calls_spec(reg.deep_view(), id)->Ok_0);
                }
                Ok(r)
            },
            _ => Err(MetadataError::InvalidVariantShape(Section::Calls)),
        },
    }
}

/// Projects an errors section.
pub fn build_errors(reg: &Registry, id: u32) -> (r: Result<Vec<ErrorVariant>, MetadataError>)
    ensures
        res_m(r) == errors_spec(reg.deep_view(), id),
{
    match reg.resolve(id) {
        None => Err(MetadataError::UnresolvedTypeReference(id)),
        Some(entry) => match &entry.def {
            TypeShape::Variant(vs) => {
                let ghost vsm = entry.deep_view().def->Variant_0;
                let mut r: Vec<ErrorVariant> = Vec::new();
                let n = vs.len();
                for i in 0..n
                    invariant
                        n == vs.len(),
                        vsm == vs.deep_view(),
                        r@.len() == i,
                        forall|j: int| 0 <= j < i ==> r@[j].deep_view() == error_m(vsm[j]),
                {
                    let v = &vs[i];
                    let e = ErrorVariant {
                        index: v.index,
                        name: v.name.clone(),
                        docs: copy_strings(&v.docs),
                    };
                    r.push(e);
                }
                proof {
                    assert(r.deep_view() =~= errors_spec(reg.deep_view(), id)->Ok_0);
                }
                Ok(r)
            },
            _ => Err(MetadataError::InvalidVariantShape(Section::Errors)),
        },
    }
}

// ---------------------------------------------------------------------------
// Whole pallet
// ---------------------------------------------------------------------------

/// An optional errors section: absent stays absent, present is projected.
pub open spec fn opt_errors_spec(reg: Seq<crate::model::EntryM>, o: Option<u32>) -> Result<
    Option<Seq<ErrorVariantM>>,
    MetadataError,
> {
    match o {
        None => Ok(None),
        Some(id) => match errors_spec(reg, id) {
            Ok(v) => Ok(Some(v)),
            Err(e) => Err(e),
        },
    }
}

/// An optional events section, as [`opt_errors_spec`].
pub open spec fn opt_events_spec(reg: Seq<crate::model::EntryM>, o: Option<u32>) -> Result<
    Option<Seq<EventM>>,
    MetadataError,
> {
    match o {
        None => Ok(None),
        Some(id) => match events_spec(reg, id) {
            Ok(v) => Ok(Some(v)),
            Err(e) => Err(e),
        },
    }
}

/// An optional calls section, as [`opt_errors_spec`].
pub open spec fn opt_calls_spec(reg: Seq<crate::model::EntryM>, o: Option<u32>) -> Result<
    Option<Seq<CallM>>,
    MetadataError,
> {
    match o {
        None => Ok(None),
        Some(id) => match calls_spec(reg, id) {
            Ok(v) => Ok(Some(v)),
            Err(e) => Err(e),
        },
    }
}

/// Projection of one pallet.  Constants and storage cannot fail; the
/// errors, events and calls sections are checked in that order and the
/// first failure is the pallet's result.
pub open spec fn pallet_spec(reg: Seq<crate::model::EntryM>, p: RawPalletM) -> Result<
    PalletM,
    MetadataError,
> {
    match opt_errors_spec(reg, p.error) {
        Err(e) => Err(e),
        Ok(errors) => match opt_events_spec(reg, p.event) {
            Err(e) => Err(e),
            Ok(events) => match opt_calls_spec(reg, p.calls) {
                Err(e) => Err(e),
                Ok(calls) => Ok(
                    PalletM {
                        index: p.index,
                        name: p.name,
                        constants: p.constants,
                        storage: match p.storage {
                            None => None,
                            Some(es) => Some(storage_items_m(es)),
                        },
                        errors,
                        events,
                        calls,
                    },
                ),
            },
        },
    }
}

/// Projects one pallet against the shared registry.
pub fn project_pallet(reg: &Registry, p: &RawPallet) -> (r: Result<Pallet, MetadataError>)
    ensures
        res_m(r) == pallet_spec(reg.deep_view(), p.deep_view()),
{
    let errors = match &p.error {
        None => None,
        Some(id) => match build_errors(reg, *id) {
            Ok(v) => Some(v),
            Err(e) => {
                return Err(e);
            },
        },
    };
    let events = match &p.event {
        None => None,
        Some(id) => match build_events(reg, *id) {
            Ok(v) => Some(v),
            Err(e) => {
                return Err(e);
            },
        },
    };
    let calls = match &p.calls {
        None => None,
        Some(id) => match build_calls(reg, *id) {
            Ok(v) => Some(v),
            Err(e) => {
                return Err(e);
            },
        },
    };
    let storage = match &p.storage {
        None => None,
        Some(es) => Some(build_storage(es)),
    };
    Ok(
        Pallet {
            index: p.index,
            name: p.name.clone(),
            constants: copy_constants(&p.constants),
            storage,
            errors,
            events,
            calls,
        },
    )
}

} // verus!
