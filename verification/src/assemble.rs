//! The metadata assembler: builds the full type index, projects every
//! pallet and filters the signing extensions, stopping at the first
//! error.  No partial output is ever returned.

use vstd::prelude::*;

use crate::extensions::{extensions_spec, filter_extensions};
use crate::model::{EntryM, MetadataError, RawPalletM};
use crate::normalize::{normalize, normalize_full_spec, res_m};
use crate::output::{Extensions, ExtensionsM, Metadata, MetadataM, PalletM, TypeEntry, TypeEntryM};
use crate::project::{pallet_spec, project_pallet};
use crate::registry::{id_set, resolve_spec, RawMetadata, RawMetadataM};

verus! {

/// The normalized type index over `entries`, resolved against the full
/// registry `reg`: one entry per registry entry, in registry order; the
/// first normalization failure is the index's result.
pub open spec fn types_index_spec(reg: Seq<EntryM>, entries: Seq<EntryM>) -> Result<
    Seq<TypeEntryM>,
    MetadataError,
>
    decreases entries.len(),
{
    if entries.len() == 0 {
        Ok(Seq::empty())
    } else {
        match normalize_full_spec(reg, entries[0].id) {
            Err(e) => Err(e),
            Ok(t) => match types_index_spec(reg, entries.drop_first()) {
                Err(e) => Err(e),
                Ok(rest) => Ok(seq![TypeEntryM { id: entries[0].id, ty: t }] + rest),
            },
        }
    }
}

/// Projection of every pallet, in order; the first failure wins.
pub open spec fn pallets_spec(reg: Seq<EntryM>, ps: Seq<RawPalletM>) -> Result<
    Seq<PalletM>,
    MetadataError,
>
    decreases ps.len(),
{
    if ps.len() == 0 {
        Ok(Seq::empty())
    } else {
        match pallet_spec(reg, ps[0]) {
            Err(e) => Err(e),
            Ok(p) => match pallets_spec(reg, ps.drop_first()) {
                Err(e) => Err(e),
                Ok(rest) => Ok(seq![p] + rest),
            },
        }
    }
}

/// The whole assembly: the type index first, then the pallets, then the
/// signing extensions; the first error encountered is the result.
pub open spec fn assemble_spec(raw: RawMetadataM) -> Result<MetadataM, MetadataError> {
    match types_index_spec(raw.types, raw.types) {
        Err(e) => Err(e),
        Ok(types) => match pallets_spec(raw.types, raw.pallets) {
            Err(e) => Err(e),
            Ok(pallets) => match extensions_spec(raw.types, raw.extrinsic.extensions) {
                Err(e) => Err(e),
                Ok(extensions) => Ok(
                    MetadataM {
                        pallets,
                        types,
                        signing: ExtensionsM { version: raw.extrinsic.version, extensions },
                    },
                ),
            },
        },
    }
}

/// Builds the full normalized type index.
fn build_types_index(reg: &crate::registry::Registry) -> (r: Result<Vec<TypeEntry>, MetadataError>)
    ensures
        res_m(r) == types_index_spec(reg.deep_view(), reg.deep_view()),
{
    let ghost regm = reg.deep_view();
    let mut out: Vec<TypeEntry> = Vec::new();
    let n = reg.entries.len();
    proof {
        assert(regm.skip(0) =~= regm);
    }
    for i in 0..n
        invariant
            n == reg.entries.len(),
            regm == reg.deep_view(),
            types_index_spec(regm, regm) == (match types_index_spec(regm, regm.skip(i as int)) {
                Err(e) => Err::<Seq<TypeEntryM>, MetadataError>(e),
                Ok(rest) => Ok(out.deep_view() + rest),
            }),
    {
        proof {
            assert(regm.skip(i as int)[0] == regm[i as int]);
            assert(regm.skip(i as int).drop_first() =~= regm.skip(i + 1));
        }
        let id = reg.entries[i].id;
        let t = match normalize(reg, id) {
            Ok(t) => t,
            Err(e) => {
                return Err(e);
            },
        };
        let ghost prev = out.deep_view();
        let entry = TypeEntry { id, ty: t };
        out.push(entry);
        proof {
            assert(out.deep_view() =~= prev.push(entry.deep_view()));
            assert forall|rest: Seq<TypeEntryM>|
                prev + (seq![entry.deep_view()] + rest) =~= out.deep_view() + rest by {
                assert(out.deep_view() =~= prev.push(entry.deep_view()));
            }
        }
    }
    proof {
        assert(regm.skip(n as int) =~= Seq::<EntryM>::empty());
        assert(out.deep_view() + Seq::<TypeEntryM>::empty() =~= out.deep_view());
    }
    Ok(out)
}

/// Projects every pallet.
fn build_pallets(raw: &RawMetadata) -> (r: Result<Vec<crate::output::Pallet>, MetadataError>)
    ensures
        res_m(r) == pallets_spec(raw.types.deep_view(), raw.pallets.deep_view()),
{
    let ghost regm = raw.types.deep_view();
    let ghost psm = raw.pallets.deep_view();
    let mut out: Vec<crate::output::Pallet> = Vec::new();
    let n = raw.pallets.len();
    proof {
        assert(psm.skip(0) =~= psm);
    }
    for i in 0..n
        invariant
            n == raw.pallets.len(),
            regm == raw.types.deep_view(),
            psm == raw.pallets.deep_view(),
            pallets_spec(regm, psm) == (match pallets_spec(regm, psm.skip(i as int)) {
                Err(e) => Err::<Seq<PalletM>, MetadataError>(e),
                Ok(rest) => Ok(out.deep_view() + rest),
            }),
    {
        proof {
            assert(psm.skip(i as int)[0] == psm[i as int]);
            assert(psm.skip(i as int).drop_first() =~= psm.skip(i + 1));
        }
        let p = match project_pallet(&raw.types, &raw.pallets[i]) {
            Ok(p) => p,
            Err(e) => {
                return Err(e);
            },
        };
        let ghost prev = out.deep_view();
        out.push(p);
        proof {
            assert(out.deep_view() =~= prev.push(out.deep_view().last()));
            assert forall|rest: Seq<PalletM>|
                prev + (seq![out.deep_view().last()] + rest) =~= out.deep_view() + rest by {
                assert(out.deep_view() =~= prev.push(out.deep_view().last()));
            }
        }
    }
    proof {
        assert(psm.skip(n as int) =~= Seq::<RawPalletM>::empty());
        assert(out.deep_view() + Seq::<PalletM>::empty() =~= out.deep_view());
    }
    Ok(out)
}

/// Assembles the normalized metadata from the decoded tree, or returns
/// the first error encountered.
pub fn assemble(raw: &RawMetadata) -> (r: Result<Metadata, MetadataError>)
    ensures
        res_m(r) == assemble_spec(raw.deep_view()),
{
    let types = match build_types_index(&raw.types) {
        Ok(t) => t,
        Err(e) => {
            return Err(e);
        },
    };
    let pallets = match build_pallets(raw) {
        Ok(p) => p,
        Err(e) => {
            return Err(e);
        },
    };
    let extensions = match filter_extensions(&raw.types, &raw.extrinsic.extensions) {
        Ok(x) => x,
        Err(e) => {
            return Err(e);
        },
    };
    Ok(
        Metadata {
            pallets,
            types,
            signing: Extensions { version: raw.extrinsic.version, extensions },
        },
    )
}

// ---------------------------------------------------------------------------
// The type index covers the registry exactly
// ---------------------------------------------------------------------------

/// A successful index has one entry per registry entry, with the same
/// ids in the same order.
proof fn lemma_types_index_ids(reg: Seq<EntryM>, entries: Seq<EntryM>, ts: Seq<TypeEntryM>)
    requires
        types_index_spec(reg, entries) == Ok::<Seq<TypeEntryM>, MetadataError>(ts),
    ensures
        ts.len() == entries.len(),
        forall|i: int| 0 <= i < ts.len() ==> ts[i].id == entries[i].id,
    decreases entries.len(),
{
    if entries.len() > 0 {
        let rest = types_index_spec(reg, entries.drop_first())->Ok_0;
        lemma_types_index_ids(reg, entries.drop_first(), rest);
    }
}

/// An id that stands at some position of the registry resolves.
proof fn lemma_resolve_present(reg: Seq<EntryM>, i: int)
    requires
        0 <= i < reg.len(),
    ensures
        resolve_spec(reg, reg[i].id) is Some,
    decreases i,
{
    if reg[0].id != reg[i].id {
        lemma_resolve_present(reg.drop_first(), i - 1);
    }
}

/// An id that resolves stands at some position of the registry.
proof fn lemma_resolve_some_index(reg: Seq<EntryM>, id: u32)
    requires
        resolve_spec(reg, id) is Some,
    ensures
        exists|i: int| 0 <= i < reg.len() && reg[i].id == id,
    decreases reg.len(),
{
    if reg.len() > 0 && reg[0].id != id {
        lemma_resolve_some_index(reg.drop_first(), id);
        let j = choose|j: int| 0 <= j < reg.drop_first().len() && reg.drop_first()[j].id == id;
        assert(reg[j + 1].id == id);
    }
}

/// For every successfully assembled metadata, the type index carries
/// one entry per registry entry, in registry order, and its id set
/// equals exactly the set of ids that resolve in the registry.
pub proof fn lemma_assembled_types_cover_registry(raw: RawMetadataM, m: MetadataM)
    requires
        assemble_spec(raw) == Ok::<MetadataM, MetadataError>(m),
    ensures
        m.types.len() == raw.types.len(),
        forall|i: int| 0 <= i < m.types.len() ==> m.types[i].id == raw.types[i].id,
        Set::new(|id: u32| exists|i: int| 0 <= i < m.types.len() && m.types[i].id == id) == id_set(
            raw.types,
        ),
{
    lemma_types_cover_registry(raw.types, m.types);
}

/// For every successfully assembled index, the set of ids it carries
/// equals exactly the set of ids that resolve in the registry.
pub proof fn lemma_types_cover_registry(reg: Seq<EntryM>, ts: Seq<TypeEntryM>)
    requires
        types_index_spec(reg, reg) == Ok::<Seq<TypeEntryM>, MetadataError>(ts),
    ensures
        ts.len() == reg.len(),
        forall|i: int| 0 <= i < ts.len() ==> ts[i].id == reg[i].id,
        Set::new(|id: u32| exists|i: int| 0 <= i < ts.len() && ts[i].id == id) == id_set(reg),
{
    lemma_types_index_ids(reg, reg, ts);
    let index_ids = Set::new(|id: u32| exists|i: int| 0 <= i < ts.len() && ts[i].id == id);
    assert forall|id: u32| index_ids.contains(id) implies id_set(reg).contains(id) by {
        let i = choose|i: int| 0 <= i < ts.len() && ts[i].id == id;
        lemma_resolve_present(reg, i);
    }
    assert forall|id: u32| id_set(reg).contains(id) implies index_ids.contains(id) by {
        lemma_resolve_some_index(reg, id);
        let i = choose|i: int| 0 <= i < reg.len() && reg[i].id == id;
        assert(ts[i].id == id);
    }
    assert(index_ids =~= id_set(reg));
}

} // verus!
