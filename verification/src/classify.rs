//! The shape classifier: selects exactly one encoding strategy from the
//! subject type's structural shape and its resolved container attributes.
//! The mapping is total and order-independent; there is no fallback search.

use vstd::prelude::*;

use crate::error::UnsupportedReason;
use crate::shape::{FieldDef, TypeShape, UnnamedFieldDef, VariantDef};

verus! {

/// The encoding strategy chosen for a subject type. Produced by the
/// classifier; consumed exactly once by the matching strategy generator.
#[derive(PartialEq, Debug)]
pub enum Strategy {
    /// A single-field unnamed aggregate: wire-identical to its inner field.
    Transparent {
        /// The single inner field.
        inner: UnnamedFieldDef,
    },
    /// An enumeration with a declared integer representation: encoded as the
    /// variant's discriminant in that integer type.
    WeakEnum {
        /// The variants, in declared order.
        variants: Vec<VariantDef>,
    },
    /// An enumeration without a representation: encoded as a textual label
    /// chosen by the naming rules.
    StrongEnum {
        /// The variants, in declared order.
        variants: Vec<VariantDef>,
    },
    /// A named-field aggregate: encoded as a backend composite value.
    Record {
        /// The fields, in declared order.
        fields: Vec<FieldDef>,
    },
    /// No strategy applies; the driver reports the reason as a diagnostic.
    Unsupported {
        /// The specific violated constraint.
        reason: UnsupportedReason,
    },
}

/// The strategy for a given structural shape, deciding weak against strong
/// enums by whether a `representation` attribute is present.
pub open spec fn spec_classify(shape: TypeShape, repr_present: bool) -> Strategy {
    match shape {
        TypeShape::UnnamedFields(fs) => if fs@.len() == 1 {
            Strategy::Transparent { inner: fs@[0] }
        } else {
            Strategy::Unsupported { reason: UnsupportedReason::UnnamedFieldCount }
        },
        TypeShape::NamedFields(fs) => Strategy::Record { fields: fs },
        TypeShape::Enumeration(vs) => if repr_present {
            Strategy::WeakEnum { variants: vs }
        } else {
            Strategy::StrongEnum { variants: vs }
        },
        TypeShape::Union => Strategy::Unsupported { reason: UnsupportedReason::UnionType },
        TypeShape::Unit => Strategy::Unsupported { reason: UnsupportedReason::UnitType },
    }
}

/// Selects the one strategy that applies to `shape`.
pub fn classify(shape: TypeShape, repr_present: bool) -> (s: Strategy)
    ensures
        s == spec_classify(shape, repr_present),
{
    match shape {
        TypeShape::UnnamedFields(mut fs) => {
            if fs.len() == 1 {
                let inner = fs.pop().unwrap();
                Strategy::Transparent { inner }
            } else {
                Strategy::Unsupported { reason: UnsupportedReason::UnnamedFieldCount }
            }
        },
        TypeShape::NamedFields(fs) => Strategy::Record { fields: fs },
        TypeShape::Enumeration(vs) => {
            if repr_present {
                Strategy::WeakEnum { variants: vs }
            } else {
                Strategy::StrongEnum { variants: vs }
            }
        },
        TypeShape::Union => Strategy::Unsupported { reason: UnsupportedReason::UnionType },
        TypeShape::Unit => Strategy::Unsupported { reason: UnsupportedReason::UnitType },
    }
}

/// Classification is total and deterministic: the same shape and the same
/// attribute presence always select the same strategy. Together with the
/// postcondition of `classify`, two runs on equal inputs return equal
/// strategies.
pub proof fn lemma_classification_deterministic(
    shape1: TypeShape,
    repr1: bool,
    shape2: TypeShape,
    repr2: bool,
)
    requires
        shape1 == shape2,
        repr1 == repr2,
    ensures
        spec_classify(shape1, repr1) == spec_classify(shape2, repr2),
{
}

} // verus!
