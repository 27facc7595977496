//! The type registry: an immutable mapping from type id to definition,
//! shared read-only by every later stage of the pipeline.

use vstd::prelude::*;

use crate::model::{EntryM, RawExtrinsic, RawExtrinsicM, RawPallet, RawPalletM, RegistryEntry};

verus! {

/// Resolution by type id: the first entry carrying `id`, if any.
pub open spec fn resolve_spec(entries: Seq<EntryM>, id: u32) -> Option<EntryM>
    decreases entries.len(),
{
    if entries.len() == 0 {
        None
    } else if entries[0].id == id {
        Some(entries[0])
    } else {
        resolve_spec(entries.drop_first(), id)
    }
}

/// The set of type ids present in a registry.
pub open spec fn id_set(entries: Seq<EntryM>) -> Set<u32> {
    Set::new(|id: u32| resolve_spec(entries, id) is Some)
}

/// The decoded type-definition table, in declaration order.
#[derive(Debug, PartialEq, Eq)]
pub struct Registry {
    pub entries: Vec<RegistryEntry>,
}

impl DeepView for Registry {
    type V = Seq<EntryM>;

    open spec fn deep_view(&self) -> Seq<EntryM> {
        self.entries.deep_view()
    }
}

/// Skipping a non-matching prefix does not change what resolution finds.
proof fn lemma_resolve_skip(entries: Seq<EntryM>, id: u32, i: int)
    requires
        0 <= i < entries.len(),
        forall|j: int| 0 <= j < i ==> entries[j].id != id,
    ensures
        resolve_spec(entries, id) == if entries[i].id == id {
            Some(entries[i])
        } else {
            resolve_spec(entries.skip(i + 1), id)
        },
    decreases i,
{
    if i == 0 {
        assert(entries.drop_first() =~= entries.skip(1));
    } else {
        assert(entries.drop_first() =~= entries.skip(1));
        lemma_resolve_skip(entries.skip(1), id, i - 1);
        assert(entries.skip(1).skip(i) =~= entries.skip(i + 1));
        assert(entries.skip(1)[i - 1] == entries[i]);
    }
}

impl Registry {
    /// Look a type id up; `None` means the reference is unresolved, which
    /// callers turn into a fatal error.
    pub fn resolve(&self, id: u32) -> (r: Option<&RegistryEntry>)
        ensures
            match r {
                Some(e) => resolve_spec(self.deep_view(), id) == Some(e.deep_view()),
                None => resolve_spec(self.deep_view(), id) is None,
            },
    {
        let n = self.entries.len();
        for i in 0..n
            invariant
                n == self.entries.len(),
                forall|j: int| 0 <= j < i ==> self.deep_view()[j].id != id,
        {
            if self.entries[i].id == id {
                proof {
                    lemma_resolve_skip(self.deep_view(), id, i as int);
                }
                return Some(&self.entries[i]);
            }
        }
        proof {
            if self.deep_view().len() > 0 {
                lemma_resolve_skip(self.deep_view(), id, self.deep_view().len() - 1);
                assert(self.deep_view().skip(self.deep_view().len() as int)
                    =~= Seq::<EntryM>::empty());
            }
        }
        None
    }
}

/// The whole decoded tree, before normalization and projection.
#[derive(Debug, PartialEq, Eq)]
pub struct RawMetadata {
    pub types: Registry,
    pub pallets: Vec<RawPallet>,
    pub extrinsic: RawExtrinsic,
}

/// Mathematical model of a [`RawMetadata`].
#[verifier::ext_equal]
pub struct RawMetadataM {
    pub types: Seq<EntryM>,
    pub pallets: Seq<RawPalletM>,
    pub extrinsic: RawExtrinsicM,
}

impl DeepView for RawMetadata {
    type V = RawMetadataM;

    open spec fn deep_view(&self) -> RawMetadataM {
        RawMetadataM {
            types: self.types.deep_view(),
            pallets: self.pallets.deep_view(),
            extrinsic: self.extrinsic.deep_view(),
        }
    }
}

} // verus!
