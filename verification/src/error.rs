//! Generation-time diagnostics. Every failure aborts generation of the
//! subject type with exactly one of these; there is no partial generation and
//! no silent fallback to another strategy.

use vstd::prelude::*;

verus! {

/// Why a structural shape is outside the four this core recognizes.
#[derive(Clone, Copy, PartialEq, Eq, Structural, Debug)]
pub enum UnsupportedReason {
    /// The subject type is a union.
    UnionType,
    /// The subject type is an unnamed-field aggregate with zero fields or
    /// with more than one field.
    UnnamedFieldCount,
    /// The subject type is a field-less unit type.
    UnitType,
}

/// A generation-time diagnostic, identifying the rule that was violated.
#[derive(Clone, Copy, PartialEq, Eq, Structural, Debug)]
pub enum ShapeError {
    /// The structural shape is not one of the four recognized ones.
    UnsupportedShape(UnsupportedReason),
    /// A container-level option this core does not know.
    UnknownContainerOption,
    /// The same container-level option was given more than once.
    DuplicateContainerOption,
    /// A member-level option this core does not know.
    UnknownMemberOption,
    /// The same member-level option was given more than once.
    DuplicateMemberOption,
    /// The `rename_all` convention name is not a known casing convention.
    UnknownCasingConvention,
    /// `representation` was given to a shape that forbids it.
    RepresentationNotAllowed,
    /// A weak enum was requested without a `representation`.
    RepresentationMissing,
    /// The `representation` name is not a supported integer type.
    RepresentationUnsupported,
    /// A container `rename` was given to a shape that forbids it.
    RenameNotAllowed,
    /// A container `rename_all` was given to a shape that forbids it.
    RenameAllNotAllowed,
    /// A member `rename` was given to a member whose shape forbids it.
    MemberRenameNotAllowed,
}

} // verus!
