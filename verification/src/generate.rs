//! The strategy generators: each consumes a classified strategy together
//! with the resolved attributes and emits a generation plan — the structured
//! form of the encode contract implementation that a rendering front end
//! turns into source text, and whose runtime behaviour is implemented and
//! verified in `wire`.

use vstd::prelude::*;

use crate::attrs::{
    check_strong_enum_attributes, check_struct_attributes, check_transparent_attributes,
    check_weak_enum_attributes, name_i16, name_i32, name_i64, parse_child_attributes,
    spec_check_strong_enum, spec_check_struct, spec_check_transparent, spec_check_weak_enum,
    spec_resolve_member, ContainerAttributes,
};
use crate::bytes::{bytes_eq, copy_bytes, copy_range, starts_with};
use crate::casing::{rename_all, spec_apply_convention, CasingConvention};
use crate::error::ShapeError;
use crate::shape::{FieldDef, IntRepr, UnnamedFieldDef, VariantDef};

verus! {

/// Backend type identifier of a boolean column.
pub const TYPE_ID_BOOL: u32 = 16;

/// Backend type identifier of an 8-byte integer column.
pub const TYPE_ID_INT8: u32 = 20;

/// Backend type identifier of a 2-byte integer column.
pub const TYPE_ID_INT2: u32 = 21;

/// Backend type identifier of a 4-byte integer column.
pub const TYPE_ID_INT4: u32 = 23;

/// Backend type identifier of a text column.
pub const TYPE_ID_TEXT: u32 = 25;

/// Backend type identifier of a column whose type this core does not know.
pub const TYPE_ID_UNKNOWN: u32 = 0;

/// The name `bool`, as ASCII bytes.
pub open spec fn name_bool() -> Seq<u8> {
    seq![98u8, 111u8, 111u8, 108u8]
}

/// The name `String`, as ASCII bytes.
pub open spec fn name_string() -> Seq<u8> {
    seq![83u8, 116u8, 114u8, 105u8, 110u8, 103u8]
}

/// The name `str`, as ASCII bytes.
pub open spec fn name_str() -> Seq<u8> {
    seq![115u8, 116u8, 114u8]
}

/// The name `text`, as ASCII bytes.
pub open spec fn name_text() -> Seq<u8> {
    seq![116u8, 101u8, 120u8, 116u8]
}

/// The prefix `Option<`, as ASCII bytes.
pub open spec fn option_prefix() -> Seq<u8> {
    seq![79u8, 112u8, 116u8, 105u8, 111u8, 110u8, 60u8]
}

/// ASCII code of `>`.
pub const CLOSE_ANGLE: u8 = 62;

/// `ty` with one layer of nullable wrapping (`Option<...>`) stripped, since
/// a nullable column carries the same backend type as its inner type.
pub open spec fn spec_base_subject_name(ty: Seq<u8>) -> Seq<u8> {
    if ty.len() >= 8 && ty.take(7) == option_prefix() && ty.last() == CLOSE_ANGLE {
        ty.subrange(7, ty.len() - 1)
    } else {
        ty
    }
}

/// The backend type identifier of a column declared with type name `ty`.
pub open spec fn spec_wire_type_id(ty: Seq<u8>) -> u32 {
    let base = spec_base_subject_name(ty);
    if base == name_bool() {
        TYPE_ID_BOOL
    } else if base == name_i16() {
        TYPE_ID_INT2
    } else if base == name_i32() {
        TYPE_ID_INT4
    } else if base == name_i64() {
        TYPE_ID_INT8
    } else if base == name_string() || base == name_str() || base == name_text() {
        TYPE_ID_TEXT
    } else {
        TYPE_ID_UNKNOWN
    }
}

/// The backend type identifier of a column declared with type name `ty`.
pub fn wire_type_id(ty: &Vec<u8>) -> (r: u32)
    ensures
        r == spec_wire_type_id(ty@),
{
    let prefix: Vec<u8> = vec![79u8, 112u8, 116u8, 105u8, 111u8, 110u8, 60u8];
    let base: Vec<u8> = if ty.len() >= 8 && starts_with(ty, &prefix) && ty[ty.len() - 1]
        == CLOSE_ANGLE {
        copy_range(ty, 7, ty.len() - 1)
    } else {
        proof {
            assert(spec_base_subject_name(ty@) == ty@);
        }
        copy_bytes(ty)
    };
    let c_bool: Vec<u8> = vec![98u8, 111u8, 111u8, 108u8];
    let c_i16: Vec<u8> = vec![105u8, 49u8, 54u8];
    let c_i32: Vec<u8> = vec![105u8, 51u8, 50u8];
    let c_i64: Vec<u8> = vec![105u8, 54u8, 52u8];
    let c_string: Vec<u8> = vec![83u8, 116u8, 114u8, 105u8, 110u8, 103u8];
    let c_str: Vec<u8> = vec![115u8, 116u8, 114u8];
    let c_text: Vec<u8> = vec![116u8, 101u8, 120u8, 116u8];
    if bytes_eq(&base, &c_bool) {
        TYPE_ID_BOOL
    } else if bytes_eq(&base, &c_i16) {
        TYPE_ID_INT2
    } else if bytes_eq(&base, &c_i32) {
        TYPE_ID_INT4
    } else if bytes_eq(&base, &c_i64) {
        TYPE_ID_INT8
    } else if bytes_eq(&base, &c_string) || bytes_eq(&base, &c_str) || bytes_eq(&base, &c_text) {
        TYPE_ID_TEXT
    } else {
        TYPE_ID_UNKNOWN
    }
}

/// One column of a composite (record) plan.
#[derive(PartialEq, Debug)]
pub struct ColumnPlan {
    /// The field's identifier.
    pub name: Vec<u8>,
    /// The field's declared type name.
    pub ty: Vec<u8>,
    /// The backend type identifier written before the field's data.
    pub type_id: u32,
}

/// How the generated contract turns a value of the subject type into wire
/// bytes. One plan per strategy.
#[derive(PartialEq, Debug)]
pub enum EncodePlan {
    /// Transparent: every operation delegates unchanged to the single inner
    /// field's own implementation.
    Delegate {
        /// The inner field's declared type name.
        inner_ty: Vec<u8>,
    },
    /// Weak enum: the value is reinterpreted as its declared discriminant in
    /// the representation integer type, which is then encoded.
    AsInteger {
        /// The declared wire integer type.
        repr: IntRepr,
        /// Each variant's discriminant, in declared order.
        discriminants: Vec<i64>,
    },
    /// Strong enum: an exhaustive match selects the variant's label, whose
    /// textual encoding is delegated to the string implementation.
    TextLabels {
        /// Each variant's wire label, in declared order.
        labels: Vec<Vec<u8>>,
    },
    /// Record: a record encoder scope writes each field in declared order,
    /// prefixing each with its backend type identifier and length.
    Composite {
        /// The columns, in declared field order.
        columns: Vec<ColumnPlan>,
    },
}

/// The emitted implementation of the encode contract for one subject type:
/// the three operations `encode`, `encode_nullable` and `size_hint`, bound
/// to the subject type through its generation plan.
#[derive(PartialEq, Debug)]
pub struct GeneratedContract {
    /// The subject type's identifier.
    pub subject_name: Vec<u8>,
    /// The plan the three operations follow.
    pub plan: EncodePlan,
}

/// The wire label of one strong-enum variant: the explicit rename if
/// present; else the container's convention applied to the identifier; else
/// the identifier itself — strictly in that order.
pub open spec fn spec_variant_label(v: VariantDef, convention: Option<CasingConvention>) -> Result<
    Seq<u8>,
    ShapeError,
> {
    match spec_resolve_member(v.options@) {
        Err(e) => Err(e),
        Ok(rn) => match rn {
            Some(l) => Ok(l),
            None => match convention {
                Some(c) => Ok(spec_apply_convention(c, v.name@)),
                None => Ok(v.name@),
            },
        },
    }
}

/// The ordered variant-to-label table of a strong enum; in order, first
/// error wins.
pub open spec fn spec_strong_labels(vs: Seq<VariantDef>, convention: Option<CasingConvention>) -> Result<
    Seq<Seq<u8>>,
    ShapeError,
>
    decreases vs.len(),
{
    if vs.len() == 0 {
        Ok(Seq::empty())
    } else {
        match spec_strong_labels(vs.drop_last(), convention) {
            Err(e) => Err(e),
            Ok(ls) => match spec_variant_label(vs.last(), convention) {
                Err(e) => Err(e),
                Ok(l) => Ok(ls.push(l)),
            },
        }
    }
}

/// The contents of a built label table, as a sequence of byte strings.
pub open spec fn labels_view(ls: Seq<Vec<u8>>) -> Seq<Seq<u8>> {
    ls.map_values(|l: Vec<u8>| l@)
}

/// Once a prefix of the variant list fails label building, the whole list
/// fails with the same diagnostic.
proof fn lemma_labels_err_persists(vs: Seq<VariantDef>, convention: Option<CasingConvention>, i: int)
    requires
        0 <= i <= vs.len(),
        spec_strong_labels(vs.take(i), convention) is Err,
    ensures
        spec_strong_labels(vs, convention) == spec_strong_labels(vs.take(i), convention),
    decreases vs.len() - i,
{
    if i == vs.len() {
        assert(vs.take(i) =~= vs);
    } else {
        assert(vs.take(i + 1).drop_last() =~= vs.take(i));
        lemma_labels_err_persists(vs, convention, i + 1);
    }
}

/// Emits the transparent-wrapper contract: a zero-overhead pass-through to
/// the single inner field.
pub fn expand_derive_encode_transparent(
    name: Vec<u8>,
    inner: UnnamedFieldDef,
    attrs: &ContainerAttributes,
) -> (r: Result<GeneratedContract, ShapeError>)
    ensures
        match spec_check_transparent(attrs@, inner.options@) {
            Err(e) => r matches Err(x) && x == e,
            Ok(u) => r matches Ok(c) && c.subject_name@ == name@ && (c.plan matches
                EncodePlan::Delegate { inner_ty } && inner_ty@ == inner.ty@),
        },
{
    match check_transparent_attributes(attrs, &inner) {
        Err(e) => Err(e),
        Ok(u) => Ok(
            GeneratedContract { subject_name: name, plan: EncodePlan::Delegate { inner_ty: inner.ty } },
        ),
    }
}

/// Emits the weak-enum contract: each variant encodes as its declared
/// discriminant, reinterpreted in the declared integer representation.
/// Discriminants are taken exactly as declared; gaps are preserved.
pub fn expand_derive_encode_weak_enum(
    name: Vec<u8>,
    variants: Vec<VariantDef>,
    attrs: &ContainerAttributes,
) -> (r: Result<GeneratedContract, ShapeError>)
    ensures
        match spec_check_weak_enum(attrs@, variants@) {
            Err(e) => r matches Err(x) && x == e,
            Ok(repr) => r matches Ok(c) && c.subject_name@ == name@ && (c.plan matches
                EncodePlan::AsInteger { repr: rp, discriminants: d } && rp == repr && d@
                == variants@.map_values(|v: VariantDef| v.discriminant)),
        },
{
    let repr = match check_weak_enum_attributes(attrs, &variants) {
        Err(e) => { return Err(e) },
        Ok(repr) => repr,
    };
    let mut discriminants: Vec<i64> = Vec::new();
    let mut i: usize = 0;
    while i < variants.len()
        invariant
            i <= variants.len(),
            discriminants@ == variants@.take(i as int).map_values(|v: VariantDef| v.discriminant),
        decreases variants.len() - i,
    {
        discriminants.push(variants[i].discriminant);
        proof {
            assert(variants@.take((i + 1) as int).map_values(|v: VariantDef| v.discriminant)
                =~= variants@.take(i as int).map_values(|v: VariantDef| v.discriminant).push(
                variants@[i as int].discriminant,
            ));
        }
        i += 1;
    }
    proof {
        assert(variants@.take(variants@.len() as int) =~= variants@);
    }
    Ok(GeneratedContract { subject_name: name, plan: EncodePlan::AsInteger { repr, discriminants } })
}

/// Emits the strong-enum contract: an ordered variant-to-label table built
/// by the naming rules, matched exhaustively at encode time.
pub fn expand_derive_encode_strong_enum(
    name: Vec<u8>,
    variants: Vec<VariantDef>,
    attrs: &ContainerAttributes,
) -> (r: Result<GeneratedContract, ShapeError>)
    ensures
        match spec_check_strong_enum(attrs@) {
            Err(e) => r matches Err(x) && x == e,
            Ok(u) => match spec_strong_labels(variants@, attrs@.rename_all) {
                Err(e) => r matches Err(x) && x == e,
                Ok(ls) => r matches Ok(c) && c.subject_name@ == name@ && (c.plan matches
                    EncodePlan::TextLabels { labels } && labels_view(labels@) == ls),
            },
        },
{
    let chk = check_strong_enum_attributes(attrs);
    match chk {
        Err(e) => { return Err(e) },
        Ok(u) => {},
    }
    proof {
        assert(spec_check_strong_enum(attrs@) is Ok);
    }
    let mut labels: Vec<Vec<u8>> = Vec::new();
    proof {
        assert(labels_view(labels@) =~= Seq::<Seq<u8>>::empty());
    }
    let mut i: usize = 0;
    while i < variants.len()
        invariant
            i <= variants.len(),
            spec_check_strong_enum(attrs@) is Ok,
            spec_strong_labels(variants@.take(i as int), attrs@.rename_all) == Ok::<
                Seq<Seq<u8>>,
                ShapeError,
            >(labels_view(labels@)),
        decreases variants.len() - i,
    {
        proof {
            assert(variants@.take((i + 1) as int).drop_last() =~= variants@.take(i as int));
            assert(variants@.take((i + 1) as int).last() == variants@[i as int]);
        }
        let label: Vec<u8> = match parse_child_attributes(&variants[i].options) {
            Err(e) => {
                proof {
                    assert(spec_variant_label(variants@[i as int], attrs@.rename_all) == Err::<
                        Seq<u8>,
                        ShapeError,
                    >(e));
                    assert(spec_strong_labels(variants@.take((i + 1) as int), attrs@.rename_all)
                        == Err::<Seq<Seq<u8>>, ShapeError>(e));
                    lemma_labels_err_persists(variants@, attrs@.rename_all, (i + 1) as int);
                }
                return Err(e);
            },
            Ok(a) => match a.rename {
                Some(l) => l,
                None => match &attrs.rename_all {
                    Some(c) => rename_all(&variants[i].name, *c),
                    None => copy_bytes(&variants[i].name),
                },
            },
        };
        proof {
            assert(spec_variant_label(variants@[i as int], attrs@.rename_all) == Ok::<
                Seq<u8>,
                ShapeError,
            >(label@));
        }
        let ghost previous_labels = labels@;
        labels.push(label);
        proof {
            assert(labels_view(labels@) =~= labels_view(previous_labels).push(label@));
        }
        i += 1;
    }
    proof {
        assert(variants@.take(variants@.len() as int) =~= variants@);
    }
    Ok(GeneratedContract { subject_name: name, plan: EncodePlan::TextLabels { labels } })
}

/// Emits the record contract when the target backend supports composite wire
/// encoding, and nothing (with the attributes still validated) when it does
/// not: one column per field, in declared order, each carrying the backend
/// type identifier of its declared type.
pub fn expand_derive_encode_struct(
    name: Vec<u8>,
    fields: Vec<FieldDef>,
    attrs: &ContainerAttributes,
    records_supported: bool,
) -> (r: Result<Option<GeneratedContract>, ShapeError>)
    ensures
        match spec_check_struct(attrs@, fields@) {
            Err(e) => r matches Err(x) && x == e,
            Ok(u) => if records_supported {
                r matches Ok(oc) && oc matches Some(c) && c.subject_name@ == name@ && (c.plan matches
                    EncodePlan::Composite { columns } && columns@.len() == fields@.len() && (forall|
                    j: int,
                |
                    0 <= j < fields@.len() ==> (#[trigger] columns@[j]).name@ == fields@[j].name@
                        && columns@[j].ty@ == fields@[j].ty@ && columns@[j].type_id
                        == spec_wire_type_id(fields@[j].ty@)))
            } else {
                r matches Ok(oc) && oc is None
            },
        },
{
    match check_struct_attributes(attrs, &fields) {
        Err(e) => { return Err(e) },
        Ok(u) => {},
    }
    if !records_supported {
        return Ok(None);
    }
    let mut columns: Vec<ColumnPlan> = Vec::new();
    let mut i: usize = 0;
    while i < fields.len()
        invariant
            i <= fields.len(),
            columns@.len() == i,
            forall|j: int|
                0 <= j < i ==> (#[trigger] columns@[j]).name@ == fields@[j].name@
                    && columns@[j].ty@ == fields@[j].ty@ && columns@[j].type_id
                    == spec_wire_type_id(fields@[j].ty@),
        decreases fields.len() - i,
    {
        let f = &fields[i];
        let col = ColumnPlan {
            name: copy_bytes(&f.name),
            ty: copy_bytes(&f.ty),
            type_id: wire_type_id(&f.ty),
        };
        columns.push(col);
        i += 1;
    }
    Ok(
        Some(
            GeneratedContract { subject_name: name, plan: EncodePlan::Composite { columns } },
        ),
    )
}

/// The label precedence rule, as a stated law: for a variant whose options
/// resolve, the label is the explicit rename if present; else the convention
/// applied to the identifier; else the identifier — strictly in that order.
pub proof fn lemma_label_precedence(v: VariantDef, convention: Option<CasingConvention>)
    ensures
        match spec_resolve_member(v.options@) {
            Err(e) => spec_variant_label(v, convention) == Err::<Seq<u8>, ShapeError>(e),
            Ok(rn) => match rn {
                Some(l) => spec_variant_label(v, convention) == Ok::<Seq<u8>, ShapeError>(l),
                None => match convention {
                    Some(c) => spec_variant_label(v, convention) == Ok::<Seq<u8>, ShapeError>(
                        spec_apply_convention(c, v.name@),
                    ),
                    None => spec_variant_label(v, convention) == Ok::<Seq<u8>, ShapeError>(v.name@),
                },
            },
        },
{
}

} // verus!
