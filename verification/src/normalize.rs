//! The type normalizer: converts one raw type definition into a canonical
//! [`ScaleType`] record, resolving references through the registry and
//! eliding transparent single-field wrappers.

use vstd::prelude::*;
use vstd::string::StringExecFns;

use crate::model::{
    Field, FieldM, MetadataError, PrimitiveScaleType, RawPrimitive, ShapeM, TypeShape, VariantDef,
    VariantDefM,
};
use crate::output::{ScaleType, ScaleTypeM, Variant, VariantM};
use crate::registry::{resolve_spec, Registry};

verus! {

/// Maps a `Result` whose success side has a deep view to the model level;
/// the error side is plain data and carries over unchanged.
pub open spec fn res_m<T: DeepView>(r: Result<T, MetadataError>) -> Result<
    T::V,
    MetadataError,
> {
    match r {
        Ok(t) => Ok(t.deep_view()),
        Err(e) => Err(e),
    }
}

/// The 1:1 mapping from raw primitive to normalized kind; the character
/// and string primitives both map to the string kind.
pub open spec fn prim_kind(p: RawPrimitive) -> PrimitiveScaleType {
    match p {
        RawPrimitive::Bool => PrimitiveScaleType::Boolean,
        RawPrimitive::Char => PrimitiveScaleType::Str,
        RawPrimitive::Str => PrimitiveScaleType::Str,
        RawPrimitive::U8 => PrimitiveScaleType::U8,
        RawPrimitive::U16 => PrimitiveScaleType::U16,
        RawPrimitive::U32 => PrimitiveScaleType::U32,
        RawPrimitive::U64 => PrimitiveScaleType::U64,
        RawPrimitive::U128 => PrimitiveScaleType::U128,
        RawPrimitive::U256 => PrimitiveScaleType::U256,
        RawPrimitive::I8 => PrimitiveScaleType::I8,
        RawPrimitive::I16 => PrimitiveScaleType::I16,
        RawPrimitive::I32 => PrimitiveScaleType::I32,
        RawPrimitive::I64 => PrimitiveScaleType::I64,
        RawPrimitive::I128 => PrimitiveScaleType::I128,
        RawPrimitive::I256 => PrimitiveScaleType::I256,
    }
}

/// The qualified name of a type: its path segments joined with `::`.
/// The last segment is the type's identifier, the rest its namespace;
/// an empty path yields the empty string.
pub open spec fn joined_path(path: Seq<Seq<char>>) -> Seq<char>
    decreases path.len(),
{
    if path.len() == 0 {
        Seq::empty()
    } else if path.len() == 1 {
        path[0]
    } else {
        joined_path(path.drop_last()) + "::"@ + path.last()
    }
}

/// A variant type normalizes to the option kind exactly when it has two
/// variants named, in order, `None` and `Some`, and the `Some` variant
/// carries at least one field to point the `store` at.
pub open spec fn is_option_shape(vs: Seq<VariantDefM>) -> bool {
    vs.len() == 2 && vs[0].name == "None"@ && vs[1].name == "Some"@ && vs[1].fields.len() >= 1
}

/// A variant type normalizes to the result kind exactly when it has two
/// variants named, in order, `Ok` and `Err`, each carrying at least one
/// field to reference.
pub open spec fn is_result_shape(vs: Seq<VariantDefM>) -> bool {
    vs.len() == 2 && vs[0].name == "Ok"@ && vs[1].name == "Err"@ && vs[0].fields.len() >= 1
        && vs[1].fields.len() >= 1
}

/// A normalized record carrying only a kind.
pub open spec fn st_plain(k: PrimitiveScaleType) -> ScaleTypeM {
    ScaleTypeM { ty: k, variants: None, store: None, length: None, fields: None, name: None }
}

/// The compact kind: `store` references the wrapped type, unexpanded.
pub open spec fn st_compact(inner: u32) -> ScaleTypeM {
    ScaleTypeM {
        ty: PrimitiveScaleType::Compact,
        variants: None,
        store: Some(inner),
        length: None,
        fields: None,
        name: None,
    }
}

/// The list kind: `store` references the element type; `length` is
/// present only for fixed-size arrays.
pub open spec fn st_list(store: u32, length: Option<u32>) -> ScaleTypeM {
    ScaleTypeM {
        ty: PrimitiveScaleType::List,
        variants: None,
        store: Some(store),
        length,
        fields: None,
        name: None,
    }
}

/// The option kind: `store` references the payload of the `Some` variant.
pub open spec fn st_option(store: u32) -> ScaleTypeM {
    ScaleTypeM {
        ty: PrimitiveScaleType::OptionType,
        variants: None,
        store: Some(store),
        length: None,
        fields: None,
        name: None,
    }
}

/// The result kind: two unnamed fields referencing the `Ok` and `Err`
/// payload types, in that order.
pub open spec fn st_result(ok: u32, err: u32) -> ScaleTypeM {
    ScaleTypeM {
        ty: PrimitiveScaleType::ResultType,
        variants: None,
        store: None,
        length: None,
        fields: Some(
            seq![
                FieldM { name: None, field: ok },
                FieldM { name: None, field: err },
            ],
        ),
        name: None,
    }
}

/// One unnamed field per tuple element, in order.
pub open spec fn tuple_fields_m(ids: Seq<u32>) -> Seq<FieldM> {
    Seq::new(ids.len(), |i: int| FieldM { name: None, field: ids[i] })
}

/// The tuple kind.
pub open spec fn st_tuple(ids: Seq<u32>) -> ScaleTypeM {
    ScaleTypeM {
        ty: PrimitiveScaleType::Tuple,
        variants: None,
        store: None,
        length: None,
        fields: Some(tuple_fields_m(ids)),
        name: None,
    }
}

/// The struct kind: the field list unchanged, plus the qualified name.
pub open spec fn st_struct(fields: Seq<FieldM>, name: Seq<char>) -> ScaleTypeM {
    ScaleTypeM {
        ty: PrimitiveScaleType::Struct,
        variants: None,
        store: None,
        length: None,
        fields: Some(fields),
        name: Some(name),
    }
}

/// A raw variant projected for the enum kind: the field list is absent
/// when the variant carries no fields.
pub open spec fn variant_out_m(v: VariantDefM) -> VariantM {
    VariantM {
        index: v.index,
        name: v.name,
        fields: if v.fields.len() == 0 {
            Option::<Seq<FieldM>>::None
        } else {
            Some(v.fields)
        },
    }
}

/// All variants of a raw variant type, projected for the enum kind.
pub open spec fn enum_variants_m(vs: Seq<VariantDefM>) -> Seq<VariantM> {
    Seq::new(vs.len(), |i: int| variant_out_m(vs[i]))
}

/// The generic enum kind: projected variants plus the qualified name.
pub open spec fn st_enum(vs: Seq<VariantDefM>, name: Seq<char>) -> ScaleTypeM {
    ScaleTypeM {
        ty: PrimitiveScaleType::Enum,
        variants: Some(enum_variants_m(vs)),
        store: None,
        length: None,
        fields: None,
        name: Some(name),
    }
}

/// Normalization of one resolved definition, without wrapper elision
/// (the composite single-field case is handled by the caller).
pub open spec fn normalize_shape(e: crate::model::EntryM) -> ScaleTypeM {
    match e.def {
        ShapeM::Primitive(p) => st_plain(prim_kind(p)),
        ShapeM::Compact(inner) => st_compact(inner),
        ShapeM::Array(len, inner) => st_list(inner, Some(len)),
        ShapeM::Sequence(inner) => st_list(inner, None),
        ShapeM::BitSequence(order) => st_list(order, None),
        ShapeM::Tuple(ids) => st_tuple(ids),
        ShapeM::Composite(fields) => st_struct(fields, joined_path(e.path)),
        ShapeM::Variant(vs) => if is_option_shape(vs) {
            st_option(vs[1].fields[0].field)
        } else if is_result_shape(vs) {
            st_result(vs[0].fields[0].field, vs[1].fields[0].field)
        } else {
            st_enum(vs, joined_path(e.path))
        },
    }
}

/// Recursive normalization of the type with id `id`.  A single-field
/// composite is a transparent wrapper: normalization recurses into the
/// field's type and returns its normalized form unchanged.  `fuel` bounds
/// the elision chain; exhausting it means the chain revisited some id,
/// which is reported as a cyclic type.
pub open spec fn normalize_spec(reg: Seq<crate::model::EntryM>, id: u32, fuel: nat) -> Result<
    ScaleTypeM,
    MetadataError,
>
    decreases fuel,
{
    match resolve_spec(reg, id) {
        None => Err(MetadataError::UnresolvedTypeReference(id)),
        Some(e) => match e.def {
            ShapeM::Composite(fields) => if fields.len() == 1 {
                if fuel == 0 {
                    Err(MetadataError::CyclicType(id))
                } else {
                    normalize_spec(reg, fields[0].field, (fuel - 1) as nat)
                }
            } else {
                Ok(normalize_shape(e))
            },
            _ => Ok(normalize_shape(e)),
        },
    }
}

/// Normalization with the fuel every caller uses: the registry size.  A
/// chain of distinct single-field wrappers can never be longer, so only
/// a cyclic chain ever runs out.
pub open spec fn normalize_full_spec(reg: Seq<crate::model::EntryM>, id: u32) -> Result<
    ScaleTypeM,
    MetadataError,
> {
    normalize_spec(reg, id, reg.len() as nat)
}

/// Transparent wrapper elision: when a type resolves to a composite
/// with exactly one field, its normalization is exactly the
/// normalization of that field's type — no struct wrapper is emitted.
pub proof fn lemma_wrapper_elision(reg: Seq<crate::model::EntryM>, id: u32, fuel: nat)
    requires
        fuel > 0,
        resolve_spec(reg, id) is Some,
        resolve_spec(reg, id)->Some_0.def matches ShapeM::Composite(fs) && fs.len() == 1,
    ensures
        normalize_spec(reg, id, fuel) == normalize_spec(
            reg,
            resolve_spec(reg, id)->Some_0.def->Composite_0[0].field,
            (fuel - 1) as nat,
        ),
{
}

/// Copies an optional field name.
fn copy_opt_string(o: &Option<String>) -> (r: Option<String>)
    ensures
        r.deep_view() == o.deep_view(),
{
    match o {
        Some(s) => Some(s.clone()),
        None => None,
    }
}

/// Copies a field list out of the registry.
pub fn copy_fields(fs: &Vec<Field>) -> (r: Vec<Field>)
    ensures
        r.deep_view() == fs.deep_view(),
{
    let mut r: Vec<Field> = Vec::new();
    let n = fs.len();
    for i in 0..n
        invariant
            n == fs.len(),
            r@.len() == i,
            forall|j: int| 0 <= j < i ==> r@[j].deep_view() == fs.deep_view()[j],
    {
        let f = &fs[i];
        let elem = Field { name: copy_opt_string(&f.name), field: f.field };
        proof {
            assert(elem.deep_view() == fs.deep_view()[i as int]);
        }
        r.push(elem);
    }
    proof {
        assert(r.deep_view() =~= fs.deep_view());
    }
    r
}

/// Copies a documentation block (a list of lines).
pub fn copy_strings(v: &Vec<String>) -> (r: Vec<String>)
    ensures
        r.deep_view() == v.deep_view(),
{
    let mut r: Vec<String> = Vec::new();
    let n = v.len();
    for i in 0..n
        invariant
            n == v.len(),
            r@.len() == i,
            forall|j: int| 0 <= j < i ==> r@[j].deep_view() == v.deep_view()[j],
    {
        r.push(v[i].clone());
    }
    proof {
        assert(r.deep_view() =~= v.deep_view());
    }
    r
}

/// Joins path segments with `::` into the qualified type name.
pub fn join_path(path: &Vec<String>) -> (r: String)
    ensures
        r@ == joined_path(path.deep_view()),
{
    let mut s = String::new();
    let n = path.len();
    for i in 0..n
        invariant
            n == path.len(),
            s@ == joined_path(path.deep_view().take(i as int)),
    {
        if i > 0 {
            s.append("::");
        }
        s.append(path[i].as_str());
        proof {
            let pm = path.deep_view();
            if i == 0 {
                assert(s@ =~= joined_path(pm.take(1)));
            } else {
                assert(pm.take(i + 1).drop_last() =~= pm.take(i as int));
                assert(s@ =~= joined_path(pm.take(i as int)) + "::"@ + pm.take(i + 1).last());
            }
        }
    }
    proof {
        assert(path.deep_view().take(n as int) =~= path.deep_view());
    }
    s
}

/// True when the string equals the literal, compared by contents.
fn str_eq(a: &String, lit: &str) -> (r: bool)
    ensures
        r == (a@ == lit@),
{
    let l = String::from_str(lit);
    a.eq(&l)
}

/// The executable 1:1 primitive mapping.
fn prim_kind_exec(p: RawPrimitive) -> (k: PrimitiveScaleType)
    ensures
        k == prim_kind(p),
{
    match p {
        RawPrimitive::Bool => PrimitiveScaleType::Boolean,
        RawPrimitive::Char => PrimitiveScaleType::Str,
        RawPrimitive::Str => PrimitiveScaleType::Str,
        RawPrimitive::U8 => PrimitiveScaleType::U8,
        RawPrimitive::U16 => PrimitiveScaleType::U16,
        RawPrimitive::U32 => PrimitiveScaleType::U32,
        RawPrimitive::U64 => PrimitiveScaleType::U64,
        RawPrimitive::U128 => PrimitiveScaleType::U128,
        RawPrimitive::U256 => PrimitiveScaleType::U256,
        RawPrimitive::I8 => PrimitiveScaleType::I8,
        RawPrimitive::I16 => PrimitiveScaleType::I16,
        RawPrimitive::I32 => PrimitiveScaleType::I32,
        RawPrimitive::I64 => PrimitiveScaleType::I64,
        RawPrimitive::I128 => PrimitiveScaleType::I128,
        RawPrimitive::I256 => PrimitiveScaleType::I256,
    }
}

/// A [`ScaleType`] with every payload field absent, ready to be filled.
fn st_bare(k: PrimitiveScaleType) -> (r: ScaleType)
    ensures
        r.deep_view() == st_plain(k),
{
    ScaleType { ty: k, variants: None, store: None, length: None, fields: None, name: None }
}

/// Builds one unnamed field per tuple element.
fn build_tuple_fields(ids: &Vec<u32>) -> (r: Vec<Field>)
    ensures
        r.deep_view() == tuple_fields_m(ids@),
{
    let mut r: Vec<Field> = Vec::new();
    let n = ids.len();
    for i in 0..n
        invariant
            n == ids.len(),
            r@.len() == i,
            forall|j: int| 0 <= j < i ==> r@[j].deep_view() == tuple_fields_m(ids@)[j],
    {
        r.push(Field { name: None, field: ids[i] });
    }
    proof {
        assert(r.deep_view() =~= tuple_fields_m(ids@));
    }
    r
}

/// Projects the variants of a raw variant type for the enum kind.
fn build_variants(vs: &Vec<VariantDef>) -> (r: Vec<Variant>)
    ensures
        r.deep_view() == enum_variants_m(vs.deep_view()),
{
    let mut r: Vec<Variant> = Vec::new();
    let n = vs.len();
    for i in 0..n
        invariant
            n == vs.len(),
            r@.len() == i,
            forall|j: int| 0 <= j < i ==> r@[j].deep_view() == enum_variants_m(vs.deep_view())[j],
    {
        let v = &vs[i];
        let fields = if v.fields.len() == 0 {
            None
        } else {
            Some(copy_fields(&v.fields))
        };
        let elem = Variant { index: v.index, name: v.name.clone(), fields };
        proof {
            assert(elem.deep_view() == variant_out_m(vs.deep_view()[i as int]));
        }
        r.push(elem);
    }
    proof {
        assert(r.deep_view() =~= enum_variants_m(vs.deep_view()));
    }
    r
}

/// Normalizes the resolved entry `e`, which the caller has already
/// checked not to be a single-field composite wrapper.
fn build_shape(e: &crate::model::RegistryEntry) -> (r: ScaleType)
    requires
        !(e.deep_view().def matches ShapeM::Composite(fs) && fs.len() == 1),
    ensures
        r.deep_view() == normalize_shape(e.deep_view()),
{
    match &e.def {
        TypeShape::Primitive(p) => st_bare(prim_kind_exec(*p)),
        TypeShape::Compact(inner) => {
            let mut r = st_bare(PrimitiveScaleType::Compact);
            r.store = Some(*inner);
            r
        },
        TypeShape::Array(len, inner) => {
            let mut r = st_bare(PrimitiveScaleType::List);
            r.store = Some(*inner);
            r.length = Some(*len);
            r
        },
        TypeShape::Sequence(inner) => {
            let mut r = st_bare(PrimitiveScaleType::List);
            r.store = Some(*inner);
            r
        },
        TypeShape::BitSequence(order) => {
            let mut r = st_bare(PrimitiveScaleType::List);
            r.store = Some(*order);
            r
        },
        TypeShape::Tuple(ids) => {
            let mut r = st_bare(PrimitiveScaleType::Tuple);
            r.fields = Some(build_tuple_fields(ids));
            r
        },
        TypeShape::Composite(fields) => {
            let mut r = st_bare(PrimitiveScaleType::Struct);
            r.fields = Some(copy_fields(fields));
            r.name = Some(join_path(&e.path));
            r
        },
        TypeShape::Variant(vs) => {
            let is_pair = vs.len() == 2;
            if is_pair && str_eq(&vs[0].name, "None") && str_eq(&vs[1].name, "Some")
                && vs[1].fields.len() >= 1 {
                let mut r = st_bare(PrimitiveScaleType::OptionType);
                r.store = Some(vs[1].fields[0].field);
                r
            } else if is_pair && str_eq(&vs[0].name, "Ok") && str_eq(&vs[1].name, "Err")
                && vs[0].fields.len() >= 1 && vs[1].fields.len() >= 1 {
                let mut r = st_bare(PrimitiveScaleType::ResultType);
                r.fields = Some(
                    vec![
                        Field { name: None, field: vs[0].fields[0].field },
                        Field { name: None, field: vs[1].fields[0].field },
                    ],
                );
                proof {
                    assert(r.deep_view().fields->Some_0 =~= st_result(
                        vs.deep_view()[0].fields[0].field,
                        vs.deep_view()[1].fields[0].field,
                    ).fields->Some_0);
                }
                r
            } else {
                let mut r = st_bare(PrimitiveScaleType::Enum);
                r.variants = Some(build_variants(vs));
                r.name = Some(join_path(&e.path));
                r
            }
        },
    }
}

/// Normalizes the type with id `id`, walking transparent single-field
/// wrappers until a representable definition is reached.
pub fn normalize(reg: &Registry, id: u32) -> (r: Result<ScaleType, MetadataError>)
    ensures
        res_m(r) == normalize_full_spec(reg.deep_view(), id),
{
    let ghost regm = reg.deep_view();
    let mut cur: u32 = id;
    let mut fuel: usize = reg.entries.len();
    loop
        invariant
            regm == reg.deep_view(),
            normalize_spec(regm, cur, fuel as nat) == normalize_full_spec(regm, id),
        decreases fuel,
    {
        match reg.resolve(cur) {
            None => {
                return Err(MetadataError::UnresolvedTypeReference(cur));
            },
            Some(entry) => {
                let is_wrapper = match &entry.def {
                    TypeShape::Composite(fs) => fs.len() == 1,
                    _ => false,
                };
                if is_wrapper {
                    if fuel == 0 {
                        return Err(MetadataError::CyclicType(cur));
                    }
                    fuel = fuel - 1;
                    cur = match &entry.def {
                        TypeShape::Composite(fs) => fs[0].field,
                        _ => cur,
                    };
                } else {
                    return Ok(build_shape(entry));
                }
            },
        }
    }
}

} // verus!
