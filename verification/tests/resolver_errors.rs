//! Diagnostics: every unsupported shape and every illegal attribute
//! combination must fail generation with the diagnostic naming the violated
//! rule, and classification must be deterministic.

use encodegen::attrs::{check_weak_enum_attributes, ContainerAttributes};
use encodegen::error::{ShapeError, UnsupportedReason};
use encodegen::expand_derive_encode;
use encodegen::shape::{
    ContainerOption, FieldDef, MemberOption, TypeDefinition, TypeShape, UnnamedFieldDef,
    VariantDef,
};

fn b(s: &str) -> Vec<u8> {
    s.as_bytes().to_vec()
}

fn enum_def(options: Vec<ContainerOption>, variants: Vec<VariantDef>) -> TypeDefinition {
    TypeDefinition { name: b("Subject"), options, shape: TypeShape::Enumeration(variants) }
}

fn variant(name: &str, d: i64) -> VariantDef {
    VariantDef { name: b(name), discriminant: d, options: vec![] }
}

fn expand_err(def: TypeDefinition) -> ShapeError {
    expand_derive_encode(def, true).expect_err("generation must fail")
}

#[test]
fn union_is_unsupported() {
    let def = TypeDefinition { name: b("U"), options: vec![], shape: TypeShape::Union };
    assert_eq!(expand_err(def), ShapeError::UnsupportedShape(UnsupportedReason::UnionType));
}

#[test]
fn zero_field_unnamed_aggregate_is_unsupported() {
    let def = TypeDefinition {
        name: b("Z"),
        options: vec![],
        shape: TypeShape::UnnamedFields(vec![]),
    };
    assert_eq!(
        expand_err(def),
        ShapeError::UnsupportedShape(UnsupportedReason::UnnamedFieldCount)
    );
}

#[test]
fn multi_field_unnamed_aggregate_is_unsupported() {
    let def = TypeDefinition {
        name: b("Pair"),
        options: vec![],
        shape: TypeShape::UnnamedFields(vec![
            UnnamedFieldDef { ty: b("i32"), options: vec![] },
            UnnamedFieldDef { ty: b("i64"), options: vec![] },
        ]),
    };
    assert_eq!(
        expand_err(def),
        ShapeError::UnsupportedShape(UnsupportedReason::UnnamedFieldCount)
    );
}

#[test]
fn unit_type_is_unsupported() {
    let def = TypeDefinition { name: b("U"), options: vec![], shape: TypeShape::Unit };
    assert_eq!(expand_err(def), ShapeError::UnsupportedShape(UnsupportedReason::UnitType));
}

#[test]
fn representation_on_record_is_rejected() {
    let def = TypeDefinition {
        name: b("R"),
        options: vec![ContainerOption::Representation(b("i32"))],
        shape: TypeShape::NamedFields(vec![FieldDef { name: b("a"), ty: b("i32"), options: vec![] }]),
    };
    assert_eq!(expand_err(def), ShapeError::RepresentationNotAllowed);
}

#[test]
fn representation_on_transparent_is_rejected() {
    let def = TypeDefinition {
        name: b("T"),
        options: vec![ContainerOption::Representation(b("i32"))],
        shape: TypeShape::UnnamedFields(vec![UnnamedFieldDef { ty: b("i32"), options: vec![] }]),
    };
    assert_eq!(expand_err(def), ShapeError::RepresentationNotAllowed);
}

#[test]
fn rename_all_on_transparent_is_rejected() {
    let def = TypeDefinition {
        name: b("T"),
        options: vec![ContainerOption::RenameAll(b("lowercase"))],
        shape: TypeShape::UnnamedFields(vec![UnnamedFieldDef { ty: b("i32"), options: vec![] }]),
    };
    assert_eq!(expand_err(def), ShapeError::RenameAllNotAllowed);
}

#[test]
fn rename_on_transparent_is_rejected() {
    let def = TypeDefinition {
        name: b("T"),
        options: vec![ContainerOption::Rename(b("t"))],
        shape: TypeShape::UnnamedFields(vec![UnnamedFieldDef { ty: b("i32"), options: vec![] }]),
    };
    assert_eq!(expand_err(def), ShapeError::RenameNotAllowed);
}

#[test]
fn unsupported_representation_name_is_rejected() {
    let def = enum_def(
        vec![ContainerOption::Representation(b("f32"))],
        vec![variant("One", 0)],
    );
    assert_eq!(expand_err(def), ShapeError::RepresentationUnsupported);
}

#[test]
fn rename_all_on_weak_enum_is_rejected() {
    let def = enum_def(
        vec![
            ContainerOption::Representation(b("i32")),
            ContainerOption::RenameAll(b("lowercase")),
        ],
        vec![variant("One", 0)],
    );
    assert_eq!(expand_err(def), ShapeError::RenameAllNotAllowed);
}

#[test]
fn variant_rename_on_weak_enum_is_rejected() {
    let def = enum_def(
        vec![ContainerOption::Representation(b("i32"))],
        vec![VariantDef {
            name: b("One"),
            discriminant: 0,
            options: vec![MemberOption::Rename(b("uno"))],
        }],
    );
    assert_eq!(expand_err(def), ShapeError::MemberRenameNotAllowed);
}

#[test]
fn field_rename_on_record_is_rejected() {
    let def = TypeDefinition {
        name: b("R"),
        options: vec![],
        shape: TypeShape::NamedFields(vec![FieldDef {
            name: b("a"),
            ty: b("i32"),
            options: vec![MemberOption::Rename(b("b"))],
        }]),
    };
    assert_eq!(expand_err(def), ShapeError::MemberRenameNotAllowed);
}

#[test]
fn unknown_container_option_fails_resolution() {
    let def = enum_def(vec![ContainerOption::Unrecognized(b("mystery"))], vec![variant("One", 0)]);
    assert_eq!(expand_err(def), ShapeError::UnknownContainerOption);
}

#[test]
fn duplicate_container_option_fails_resolution() {
    let def = enum_def(
        vec![ContainerOption::Rename(b("a")), ContainerOption::Rename(b("b"))],
        vec![variant("One", 0)],
    );
    assert_eq!(expand_err(def), ShapeError::DuplicateContainerOption);
}

#[test]
fn unknown_member_option_fails_resolution() {
    let def = enum_def(
        vec![],
        vec![VariantDef {
            name: b("One"),
            discriminant: 0,
            options: vec![MemberOption::Unrecognized(b("mystery"))],
        }],
    );
    assert_eq!(expand_err(def), ShapeError::UnknownMemberOption);
}

#[test]
fn duplicate_member_rename_fails_resolution() {
    let def = enum_def(
        vec![],
        vec![VariantDef {
            name: b("One"),
            discriminant: 0,
            options: vec![MemberOption::Rename(b("a")), MemberOption::Rename(b("b"))],
        }],
    );
    assert_eq!(expand_err(def), ShapeError::DuplicateMemberOption);
}

#[test]
fn unknown_casing_convention_fails_resolution() {
    let def = enum_def(
        vec![ContainerOption::RenameAll(b("camelCase"))],
        vec![variant("One", 0)],
    );
    assert_eq!(expand_err(def), ShapeError::UnknownCasingConvention);
}

#[test]
fn first_offending_option_wins() {
    let def = enum_def(
        vec![
            ContainerOption::Unrecognized(b("mystery")),
            ContainerOption::Rename(b("a")),
            ContainerOption::Rename(b("b")),
        ],
        vec![variant("One", 0)],
    );
    assert_eq!(expand_err(def), ShapeError::UnknownContainerOption);
}

#[test]
fn weak_enum_check_requires_a_representation() {
    let attrs = ContainerAttributes { representation: None, rename: None, rename_all: None };
    let r = check_weak_enum_attributes(&attrs, &vec![variant("One", 0)]);
    assert_eq!(r, Err(ShapeError::RepresentationMissing));
}

#[test]
fn classification_is_deterministic() {
    let make = || {
        enum_def(
            vec![ContainerOption::Representation(b("i16"))],
            vec![variant("One", 0), variant("Two", 7)],
        )
    };
    let first = expand_derive_encode(make(), true);
    let second = expand_derive_encode(make(), true);
    assert_eq!(first, second);
    let third = expand_derive_encode(make(), true);
    assert_eq!(first, third);
}
