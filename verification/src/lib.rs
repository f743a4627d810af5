//! A type-shape classification and code-generation core for a database
//! wire-encode derive: given a structured description of a user-defined type
//! and its declarative metadata, it resolves and validates the metadata,
//! classifies the type into one of four encoding strategies, and emits a
//! generation plan whose runtime behaviour (`encode`, `encode_nullable`,
//! `size_hint`) is itself implemented and verified here.

use vstd::prelude::*;

pub mod attrs;
pub mod bytes;
pub mod casing;
pub mod classify;
pub mod error;
pub mod generate;
pub mod shape;
pub mod wire;

use crate::attrs::{
    parse_container_attributes, spec_check_strong_enum, spec_check_struct, spec_check_transparent,
    spec_check_weak_enum, spec_resolve_container,
};
use crate::classify::{classify, spec_classify, Strategy};
use crate::error::ShapeError;
use crate::generate::{
    expand_derive_encode_strong_enum, expand_derive_encode_struct, expand_derive_encode_transparent,
    expand_derive_encode_weak_enum, labels_view, spec_strong_labels, spec_wire_type_id, EncodePlan,
    GeneratedContract,
};
use crate::shape::{TypeDefinition, VariantDef};

verus! {

/// Drives one generation pass: resolves the container metadata, classifies
/// the structural shape into a strategy, and hands the strategy to its
/// generator. Yields the generated contract, nothing when the strategy is
/// backend-gated and the backend lacks composite support, or the single
/// diagnostic of the first violated rule.
pub fn expand_derive_encode(def: TypeDefinition, records_supported: bool) -> (r: Result<
    Option<GeneratedContract>,
    ShapeError,
>)
    ensures
        match spec_resolve_container(def.options@) {
            Err(e) => r matches Err(x) && x == e,
            Ok(av) => match spec_classify(def.shape, av.representation is Some) {
                Strategy::Transparent { inner } => match spec_check_transparent(
                    av,
                    inner.options@,
                ) {
                    Err(e) => r matches Err(x) && x == e,
                    Ok(u) => r matches Ok(oc) && (oc matches Some(c) && c.subject_name@
                        == def.name@ && (c.plan matches EncodePlan::Delegate { inner_ty }
                        && inner_ty@ == inner.ty@)),
                },
                Strategy::WeakEnum { variants } => match spec_check_weak_enum(av, variants@) {
                    Err(e) => r matches Err(x) && x == e,
                    Ok(repr) => r matches Ok(oc) && (oc matches Some(c) && c.subject_name@
                        == def.name@ && (c.plan matches EncodePlan::AsInteger {
                        repr: rp,
                        discriminants: d,
                    } && rp == repr && d@ == variants@.map_values(
                        |vv: VariantDef| vv.discriminant,
                    ))),
                },
                Strategy::StrongEnum { variants } => match spec_check_strong_enum(av) {
                    Err(e) => r matches Err(x) && x == e,
                    Ok(u) => match spec_strong_labels(variants@, av.rename_all) {
                        Err(e) => r matches Err(x) && x == e,
                        Ok(ls) => r matches Ok(oc) && (oc matches Some(c) && c.subject_name@
                            == def.name@ && (c.plan matches EncodePlan::TextLabels { labels }
                            && labels_view(labels@) == ls)),
                    },
                },
                Strategy::Record { fields } => match spec_check_struct(av, fields@) {
                    Err(e) => r matches Err(x) && x == e,
                    Ok(u) => if records_supported {
                        r matches Ok(oc) && (oc matches Some(c) && c.subject_name@ == def.name@ && (
                        c.plan matches EncodePlan::Composite { columns } && columns@.len()
                            == fields@.len() && (forall|j: int|
                            0 <= j < fields@.len() ==> (#[trigger] columns@[j]).name@
                                == fields@[j].name@ && columns@[j].ty@ == fields@[j].ty@
                                && columns@[j].type_id == spec_wire_type_id(fields@[j].ty@))))
                    } else {
                        r matches Ok(oc) && oc is None
                    },
                },
                Strategy::Unsupported { reason } => r matches Err(x) && x
                    == ShapeError::UnsupportedShape(reason),
            },
        },
{
    let TypeDefinition { name, options, shape } = def;
    let attrs = match parse_container_attributes(&options) {
        Err(e) => { return Err(e) },
        Ok(a) => a,
    };
    match classify(shape, attrs.representation.is_some()) {
        Strategy::Transparent { inner } => {
            match expand_derive_encode_transparent(name, inner, &attrs) {
                Err(e) => Err(e),
                Ok(c) => Ok(Some(c)),
            }
        },
        Strategy::WeakEnum { variants } => {
            match expand_derive_encode_weak_enum(name, variants, &attrs) {
                Err(e) => Err(e),
                Ok(c) => Ok(Some(c)),
            }
        },
        Strategy::StrongEnum { variants } => {
            match expand_derive_encode_strong_enum(name, variants, &attrs) {
                Err(e) => Err(e),
                Ok(c) => Ok(Some(c)),
            }
        },
        Strategy::Record { fields } => {
            expand_derive_encode_struct(name, fields, &attrs, records_supported)
        },
        Strategy::Unsupported { reason } => Err(ShapeError::UnsupportedShape(reason)),
    }
}

} // verus!
