//! The signed-extension filter: keeps only the extensions whose own type
//! or additional-signed-data type carries a payload.

use vstd::prelude::*;

use crate::model::{EntryM, MetadataError, RawExtension, RawExtensionM, ShapeM, TypeShape};
use crate::normalize::res_m;
use crate::output::{SignedExtension, SignedExtensionM};
use crate::registry::{resolve_spec, Registry};

verus! {

/// A definition carries no payload exactly when it is a composite with
/// zero fields, a tuple with zero elements, a variant with zero variants
/// or an array of length zero; every other definition carries payload.
pub open spec fn carries_payload(d: ShapeM) -> bool {
    match d {
        ShapeM::Composite(fs) => fs.len() > 0,
        ShapeM::Tuple(ids) => ids.len() > 0,
        ShapeM::Variant(vs) => vs.len() > 0,
        ShapeM::Array(len, _) => len > 0,
        _ => true,
    }
}

/// One declared extension: both referenced types must resolve; the
/// extension survives, with the payload-free sides absent, unless both
/// sides are payload-free, in which case it is dropped (`None`).
pub open spec fn extension_spec(reg: Seq<EntryM>, x: RawExtensionM) -> Result<
    Option<SignedExtensionM>,
    MetadataError,
> {
    match resolve_spec(reg, x.ty) {
        None => Err(MetadataError::UnresolvedTypeReference(x.ty)),
        Some(own) => match resolve_spec(reg, x.additional) {
            None => Err(MetadataError::UnresolvedTypeReference(x.additional)),
            Some(add) => {
                let ty = if carries_payload(own.def) {
                    Some(x.ty)
                } else {
                    Option::<u32>::None
                };
                let additional = if carries_payload(add.def) {
                    Some(x.additional)
                } else {
                    Option::<u32>::None
                };
                if ty is None && additional is None {
                    Ok(None)
                } else {
                    Ok(Some(SignedExtensionM { name: x.name, ty, additional }))
                }
            },
        },
    }
}

/// The whole extension section, in declaration order; the first
/// resolution failure is the section's result.
pub open spec fn extensions_spec(reg: Seq<EntryM>, xs: Seq<RawExtensionM>) -> Result<
    Seq<SignedExtensionM>,
    MetadataError,
>
    decreases xs.len(),
{
    if xs.len() == 0 {
        Ok(Seq::empty())
    } else {
        match extension_spec(reg, xs[0]) {
            Err(e) => Err(e),
            Ok(opt) => match extensions_spec(reg, xs.drop_first()) {
                Err(e) => Err(e),
                Ok(rest) => Ok(
                    match opt {
                        None => rest,
                        Some(s) => seq![s] + rest,
                    },
                ),
            },
        }
    }
}

/// An extension whose own type and additional-signed-data type both
/// resolve to payload-free definitions is dropped from the output
/// entirely.
pub proof fn lemma_payload_free_extension_dropped(reg: Seq<EntryM>, x: RawExtensionM)
    requires
        resolve_spec(reg, x.ty) is Some,
        !carries_payload(resolve_spec(reg, x.ty)->Some_0.def),
        resolve_spec(reg, x.additional) is Some,
        !carries_payload(resolve_spec(reg, x.additional)->Some_0.def),
    ensures
        extension_spec(reg, x) == Ok::<Option<SignedExtensionM>, MetadataError>(None),
{
}

/// The executable payload test.
fn carries_payload_exec(d: &TypeShape) -> (r: bool)
    ensures
        r == carries_payload(d.deep_view()),
{
    match d {
        TypeShape::Composite(fs) => fs.len() > 0,
        TypeShape::Tuple(ids) => ids.len() > 0,
        TypeShape::Variant(vs) => vs.len() > 0,
        TypeShape::Array(len, _) => *len > 0,
        _ => true,
    }
}

/// Filters the declared extensions against the registry.
pub fn filter_extensions(reg: &Registry, xs: &Vec<RawExtension>) -> (r: Result<
    Vec<SignedExtension>,
    MetadataError,
>)
    ensures
        res_m(r) == extensions_spec(reg.deep_view(), xs.deep_view()),
{
    let ghost regm = reg.deep_view();
    let ghost xsm = xs.deep_view();
    let mut out: Vec<SignedExtension> = Vec::new();
    let n = xs.len();
    proof {
        assert(xsm.skip(0) =~= xsm);
    }
    for i in 0..n
        invariant
            n == xs.len(),
            regm == reg.deep_view(),
            xsm == xs.deep_view(),
            extensions_spec(regm, xsm) == (match extensions_spec(regm, xsm.skip(i as int)) {
                Err(e) => Err::<Seq<SignedExtensionM>, MetadataError>(e),
                Ok(rest) => Ok(out.deep_view() + rest),
            }),
    {
        let x = &xs[i];
        proof {
            assert(xsm.skip(i as int)[0] == xsm[i as int]);
            assert(xsm.skip(i as int).drop_first() =~= xsm.skip(i + 1));
        }
        let own = match reg.resolve(x.ty) {
            None => {
                return Err(MetadataError::UnresolvedTypeReference(x.ty));
            },
            Some(e) => e,
        };
        let add = match reg.resolve(x.additional) {
            None => {
                return Err(MetadataError::UnresolvedTypeReference(x.additional));
            },
            Some(e) => e,
        };
        let ty = if carries_payload_exec(&own.def) {
            Some(x.ty)
        } else {
            None
        };
        let additional = if carries_payload_exec(&add.def) {
            Some(x.additional)
        } else {
            None
        };
        let ghost prev = out.deep_view();
        if !(ty.is_none() && additional.is_none()) {
            let s = SignedExtension { name: x.name.clone(), ty, additional };
            proof {
                assert(s.deep_view() == extension_spec(regm, xsm[i as int])->Ok_0->Some_0);
            }
            out.push(s);
            proof {
                assert(out.deep_view() =~= prev.push(s.deep_view()));
                assert forall|rest: Seq<SignedExtensionM>|
                    prev + (seq![s.deep_view()] + rest) =~= out.deep_view() + rest by {
                    assert(out.deep_view() =~= prev.push(s.deep_view()));
                }
            }
        }
    }
    proof {
        assert(xsm.skip(n as int) =~= Seq::<RawExtensionM>::empty());
        assert(extensions_spec(regm, xsm) == Ok::<Seq<SignedExtensionM>, MetadataError>(
            out.deep_view() + Seq::empty(),
        ));
        assert(out.deep_view() + Seq::<SignedExtensionM>::empty() =~= out.deep_view());
    }
    Ok(out)
}

} // verus!
