//! The structured description of a subject type that one generation pass
//! consumes: its structural shape, its members, and the raw declarative
//! metadata attached to the type and to each member.
//!
//! Identifiers and wire labels are carried as ASCII byte strings, the form in
//! which they are ultimately written to the wire.

use vstd::prelude::*;

verus! {

/// The integer types a weak enum may declare as its wire representation.
#[derive(Clone, Copy, PartialEq, Eq, Structural, Debug)]
pub enum IntRepr {
    I8,
    I16,
    I32,
    I64,
    U8,
    U16,
    U32,
    U64,
}

impl IntRepr {
    /// Width in bytes of one wire value of this representation.
    pub open spec fn spec_width(self) -> nat {
        match self {
            IntRepr::I8 => 1,
            IntRepr::U8 => 1,
            IntRepr::I16 => 2,
            IntRepr::U16 => 2,
            IntRepr::I32 => 4,
            IntRepr::U32 => 4,
            IntRepr::I64 => 8,
            IntRepr::U64 => 8,
        }
    }

    /// Width in bytes of one wire value of this representation.
    pub fn width(&self) -> (w: usize)
        ensures
            w == self.spec_width(),
            1 <= w <= 8,
    {
        match self {
            IntRepr::I8 => 1,
            IntRepr::U8 => 1,
            IntRepr::I16 => 2,
            IntRepr::U16 => 2,
            IntRepr::I32 => 4,
            IntRepr::U32 => 4,
            IntRepr::I64 => 8,
            IntRepr::U64 => 8,
        }
    }
}

/// One raw container-level metadata option, as handed over by the front end
/// that tokenizes the attribute syntax. Unrecognized options are passed
/// through so that resolution can reject them instead of ignoring them.
#[derive(PartialEq, Debug)]
pub enum ContainerOption {
    /// `representation = <integer type name>`: the declared wire integer type
    /// of a weak enum.
    Representation(Vec<u8>),
    /// `rename = <label>`: an explicit wire label for the container.
    Rename(Vec<u8>),
    /// `rename_all = <convention name>`: a casing convention applied to every
    /// member identifier that has no explicit rename.
    RenameAll(Vec<u8>),
    /// An option this core does not know, carried by its name.
    Unrecognized(Vec<u8>),
}

/// One raw member-level (field or variant) metadata option.
#[derive(PartialEq, Debug)]
pub enum MemberOption {
    /// `rename = <label>`: an explicit wire label for this member.
    Rename(Vec<u8>),
    /// An option this core does not know, carried by its name.
    Unrecognized(Vec<u8>),
}

/// The single field of a single-field unnamed aggregate.
#[derive(PartialEq, Debug)]
pub struct UnnamedFieldDef {
    /// The textual name of the field's type.
    pub ty: Vec<u8>,
    /// Raw metadata options attached to the field.
    pub options: Vec<MemberOption>,
}

/// One named field of a record-shaped aggregate.
#[derive(PartialEq, Debug)]
pub struct FieldDef {
    /// The field's identifier.
    pub name: Vec<u8>,
    /// The textual name of the field's type.
    pub ty: Vec<u8>,
    /// Raw metadata options attached to the field.
    pub options: Vec<MemberOption>,
}

/// One variant of an enumeration.
#[derive(PartialEq, Debug)]
pub struct VariantDef {
    /// The variant's identifier.
    pub name: Vec<u8>,
    /// The variant's discriminant value, exactly as declared (the front end
    /// fills in the language's defaulting rule for unassigned variants).
    pub discriminant: i64,
    /// Raw metadata options attached to the variant.
    pub options: Vec<MemberOption>,
}

/// The structural shape of the subject type.
#[derive(PartialEq, Debug)]
pub enum TypeShape {
    /// An aggregate of unnamed fields (any count; only a count of exactly one
    /// is supported).
    UnnamedFields(Vec<UnnamedFieldDef>),
    /// An aggregate of named fields.
    NamedFields(Vec<FieldDef>),
    /// An enumeration of unit variants.
    Enumeration(Vec<VariantDef>),
    /// A union type; never supported.
    Union,
    /// A field-less unit type; never supported.
    Unit,
}

/// Everything one generation pass knows about the subject type. Immutable
/// once captured.
#[derive(PartialEq, Debug)]
pub struct TypeDefinition {
    /// The subject type's identifier.
    pub name: Vec<u8>,
    /// Raw container-level metadata options.
    pub options: Vec<ContainerOption>,
    /// The structural shape, with the members and their metadata.
    pub shape: TypeShape,
}

} // verus!
