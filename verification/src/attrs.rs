//! The attribute resolver: validates and normalizes the declarative metadata
//! attached to a subject type and to each of its members.
//!
//! Resolution is pure: it either produces validated attributes or fails with
//! a diagnostic naming the violated rule. Unknown options and duplicated
//! options fail resolution; they are never ignored. Legality of the resolved
//! options is shape-dependent and is enforced by the per-shape `check_*`
//! functions that the strategy generators call.

use vstd::prelude::*;

use crate::bytes::{bytes_eq, copy_bytes};
use crate::casing::CasingConvention;
use crate::error::ShapeError;
use crate::shape::{ContainerOption, FieldDef, IntRepr, MemberOption, UnnamedFieldDef, VariantDef};

verus! {

/// The mathematical value of resolved container-level attributes.
pub ghost struct ContainerAttrsView {
    /// The declared wire integer type name of a weak enum, if any.
    pub representation: Option<Seq<u8>>,
    /// The explicit container wire label, if any.
    pub rename: Option<Seq<u8>>,
    /// The casing convention for members without an explicit rename, if any.
    pub rename_all: Option<CasingConvention>,
}

/// Validated container-level attributes, derived once per subject type.
pub struct ContainerAttributes {
    /// The declared wire integer type name of a weak enum, if any.
    pub representation: Option<Vec<u8>>,
    /// The explicit container wire label, if any.
    pub rename: Option<Vec<u8>>,
    /// The casing convention for members without an explicit rename, if any.
    pub rename_all: Option<CasingConvention>,
}

impl View for ContainerAttributes {
    type V = ContainerAttrsView;

    open spec fn view(&self) -> ContainerAttrsView {
        ContainerAttrsView {
            representation: match self.representation {
                Some(v) => Some(v@),
                None => None,
            },
            rename: match self.rename {
                Some(v) => Some(v@),
                None => None,
            },
            rename_all: self.rename_all,
        }
    }
}

/// Validated member-level attributes: at most one rename per member.
pub struct MemberAttributes {
    /// The explicit wire label of this member, if any.
    pub rename: Option<Vec<u8>>,
}

impl View for MemberAttributes {
    type V = Option<Seq<u8>>;

    open spec fn view(&self) -> Option<Seq<u8>> {
        match self.rename {
            Some(v) => Some(v@),
            None => None,
        }
    }
}

/// The name `i8`, as ASCII bytes.
pub open spec fn name_i8() -> Seq<u8> {
    seq![105u8, 56u8]
}

/// The name `i16`, as ASCII bytes.
pub open spec fn name_i16() -> Seq<u8> {
    seq![105u8, 49u8, 54u8]
}

/// The name `i32`, as ASCII bytes.
pub open spec fn name_i32() -> Seq<u8> {
    seq![105u8, 51u8, 50u8]
}

/// The name `i64`, as ASCII bytes.
pub open spec fn name_i64() -> Seq<u8> {
    seq![105u8, 54u8, 52u8]
}

/// The name `u8`, as ASCII bytes.
pub open spec fn name_u8() -> Seq<u8> {
    seq![117u8, 56u8]
}

/// The name `u16`, as ASCII bytes.
pub open spec fn name_u16() -> Seq<u8> {
    seq![117u8, 49u8, 54u8]
}

/// The name `u32`, as ASCII bytes.
pub open spec fn name_u32() -> Seq<u8> {
    seq![117u8, 51u8, 50u8]
}

/// The name `u64`, as ASCII bytes.
pub open spec fn name_u64() -> Seq<u8> {
    seq![117u8, 54u8, 52u8]
}

/// The convention name `lowercase`, as ASCII bytes.
pub open spec fn name_lowercase() -> Seq<u8> {
    seq![108u8, 111u8, 119u8, 101u8, 114u8, 99u8, 97u8, 115u8, 101u8]
}

/// The convention name `UPPERCASE`, as ASCII bytes.
pub open spec fn name_uppercase() -> Seq<u8> {
    seq![85u8, 80u8, 80u8, 69u8, 82u8, 67u8, 65u8, 83u8, 69u8]
}

/// The convention name `snake_case`, as ASCII bytes.
pub open spec fn name_snake_case() -> Seq<u8> {
    seq![115u8, 110u8, 97u8, 107u8, 101u8, 95u8, 99u8, 97u8, 115u8, 101u8]
}

/// The convention name `SCREAMING_SNAKE_CASE`, as ASCII bytes.
pub open spec fn name_screaming_snake_case() -> Seq<u8> {
    seq![
        83u8,
        67u8,
        82u8,
        69u8,
        65u8,
        77u8,
        73u8,
        78u8,
        71u8,
        95u8,
        83u8,
        78u8,
        65u8,
        75u8,
        69u8,
        95u8,
        67u8,
        65u8,
        83u8,
        69u8,
    ]
}

/// The supported integer representation named by `name`, if any.
pub open spec fn spec_repr_from_name(name: Seq<u8>) -> Option<IntRepr> {
    if name == name_i8() {
        Some(IntRepr::I8)
    } else if name == name_i16() {
        Some(IntRepr::I16)
    } else if name == name_i32() {
        Some(IntRepr::I32)
    } else if name == name_i64() {
        Some(IntRepr::I64)
    } else if name == name_u8() {
        Some(IntRepr::U8)
    } else if name == name_u16() {
        Some(IntRepr::U16)
    } else if name == name_u32() {
        Some(IntRepr::U32)
    } else if name == name_u64() {
        Some(IntRepr::U64)
    } else {
        None
    }
}

/// The casing convention named by `name`, if any.
pub open spec fn spec_convention_from_name(name: Seq<u8>) -> Option<CasingConvention> {
    if name == name_lowercase() {
        Some(CasingConvention::Lowercase)
    } else if name == name_uppercase() {
        Some(CasingConvention::Uppercase)
    } else if name == name_snake_case() {
        Some(CasingConvention::SnakeCase)
    } else if name == name_screaming_snake_case() {
        Some(CasingConvention::ScreamingSnakeCase)
    } else {
        None
    }
}

/// The supported integer representation named by `name`, if any.
pub fn repr_from_name(name: &Vec<u8>) -> (r: Option<IntRepr>)
    ensures
        r == spec_repr_from_name(name@),
{
    let c_i8: Vec<u8> = vec![105u8, 56u8];
    let c_i16: Vec<u8> = vec![105u8, 49u8, 54u8];
    let c_i32: Vec<u8> = vec![105u8, 51u8, 50u8];
    let c_i64: Vec<u8> = vec![105u8, 54u8, 52u8];
    let c_u8: Vec<u8> = vec![117u8, 56u8];
    let c_u16: Vec<u8> = vec![117u8, 49u8, 54u8];
    let c_u32: Vec<u8> = vec![117u8, 51u8, 50u8];
    let c_u64: Vec<u8> = vec![117u8, 54u8, 52u8];
    if bytes_eq(name, &c_i8) {
        Some(IntRepr::I8)
    } else if bytes_eq(name, &c_i16) {
        Some(IntRepr::I16)
    } else if bytes_eq(name, &c_i32) {
        Some(IntRepr::I32)
    } else if bytes_eq(name, &c_i64) {
        Some(IntRepr::I64)
    } else if bytes_eq(name, &c_u8) {
        Some(IntRepr::U8)
    } else if bytes_eq(name, &c_u16) {
        Some(IntRepr::U16)
    } else if bytes_eq(name, &c_u32) {
        Some(IntRepr::U32)
    } else if bytes_eq(name, &c_u64) {
        Some(IntRepr::U64)
    } else {
        None
    }
}

/// The casing convention named by `name`, if any.
pub fn convention_from_name(name: &Vec<u8>) -> (r: Option<CasingConvention>)
    ensures
        r == spec_convention_from_name(name@),
{
    let c_lower: Vec<u8> = vec![108u8, 111u8, 119u8, 101u8, 114u8, 99u8, 97u8, 115u8, 101u8];
    let c_upper: Vec<u8> = vec![85u8, 80u8, 80u8, 69u8, 82u8, 67u8, 65u8, 83u8, 69u8];
    let c_snake: Vec<u8> = vec![115u8, 110u8, 97u8, 107u8, 101u8, 95u8, 99u8, 97u8, 115u8, 101u8];
    let c_screaming: Vec<u8> = vec![
        83u8,
        67u8,
        82u8,
        69u8,
        65u8,
        77u8,
        73u8,
        78u8,
        71u8,
        95u8,
        83u8,
        78u8,
        65u8,
        75u8,
        69u8,
        95u8,
        67u8,
        65u8,
        83u8,
        69u8,
    ];
    if bytes_eq(name, &c_lower) {
        Some(CasingConvention::Lowercase)
    } else if bytes_eq(name, &c_upper) {
        Some(CasingConvention::Uppercase)
    } else if bytes_eq(name, &c_snake) {
        Some(CasingConvention::SnakeCase)
    } else if bytes_eq(name, &c_screaming) {
        Some(CasingConvention::ScreamingSnakeCase)
    } else {
        None
    }
}

/// One step of container resolution: folds option `o` into the attributes
/// resolved so far, rejecting duplicates and unknown options.
pub open spec fn spec_apply_container_option(acc: ContainerAttrsView, o: ContainerOption) -> Result<
    ContainerAttrsView,
    ShapeError,
> {
    match o {
        ContainerOption::Representation(name) => if acc.representation is Some {
            Err(ShapeError::DuplicateContainerOption)
        } else {
            Ok(
                ContainerAttrsView {
                    representation: Some(name@),
                    rename: acc.rename,
                    rename_all: acc.rename_all,
                },
            )
        },
        ContainerOption::Rename(label) => if acc.rename is Some {
            Err(ShapeError::DuplicateContainerOption)
        } else {
            Ok(
                ContainerAttrsView {
                    representation: acc.representation,
                    rename: Some(label@),
                    rename_all: acc.rename_all,
                },
            )
        },
        ContainerOption::RenameAll(name) => if acc.rename_all is Some {
            Err(ShapeError::DuplicateContainerOption)
        } else {
            match spec_convention_from_name(name@) {
                Some(c) => Ok(
                    ContainerAttrsView {
                        representation: acc.representation,
                        rename: acc.rename,
                        rename_all: Some(c),
                    },
                ),
                None => Err(ShapeError::UnknownCasingConvention),
            }
        },
        ContainerOption::Unrecognized(_) => Err(ShapeError::UnknownContainerOption),
    }
}

/// Resolution of a whole container option list, in order, first error wins.
pub open spec fn spec_resolve_container(opts: Seq<ContainerOption>) -> Result<
    ContainerAttrsView,
    ShapeError,
>
    decreases opts.len(),
{
    if opts.len() == 0 {
        Ok(ContainerAttrsView { representation: None, rename: None, rename_all: None })
    } else {
        match spec_resolve_container(opts.drop_last()) {
            Err(e) => Err(e),
            Ok(acc) => spec_apply_container_option(acc, opts.last()),
        }
    }
}

/// Once a prefix of the option list fails to resolve, the whole list fails
/// with the same diagnostic.
proof fn lemma_container_err_persists(opts: Seq<ContainerOption>, i: int)
    requires
        0 <= i <= opts.len(),
        spec_resolve_container(opts.take(i)) is Err,
    ensures
        spec_resolve_container(opts) == spec_resolve_container(opts.take(i)),
    decreases opts.len() - i,
{
    if i == opts.len() {
        assert(opts.take(i) =~= opts);
    } else {
        assert(opts.take(i + 1).drop_last() =~= opts.take(i));
        lemma_container_err_persists(opts, i + 1);
    }
}

/// Resolves and validates the container-level metadata of the subject type.
pub fn parse_container_attributes(opts: &Vec<ContainerOption>) -> (r: Result<
    ContainerAttributes,
    ShapeError,
>)
    ensures
        match spec_resolve_container(opts@) {
            Ok(av) => r matches Ok(a) && a@ == av,
            Err(e) => r matches Err(x) && x == e,
        },
{
    let mut a = ContainerAttributes { representation: None, rename: None, rename_all: None };
    let mut i: usize = 0;
    while i < opts.len()
        invariant
            i <= opts.len(),
            spec_resolve_container(opts@.take(i as int)) == Ok::<
                ContainerAttrsView,
                ShapeError,
            >(a@),
        decreases opts.len() - i,
    {
        proof {
            assert(opts@.take((i + 1) as int).drop_last() =~= opts@.take(i as int));
            assert(opts@.take((i + 1) as int).last() == opts@[i as int]);
        }
        match &opts[i] {
            ContainerOption::Representation(name) => {
                if a.representation.is_some() {
                    proof {
                        lemma_container_err_persists(opts@, (i + 1) as int);
                    }
                    return Err(ShapeError::DuplicateContainerOption);
                }
                a.representation = Some(copy_bytes(name));
            },
            ContainerOption::Rename(label) => {
                if a.rename.is_some() {
                    proof {
                        lemma_container_err_persists(opts@, (i + 1) as int);
                    }
                    return Err(ShapeError::DuplicateContainerOption);
                }
                a.rename = Some(copy_bytes(label));
            },
            ContainerOption::RenameAll(name) => {
                if a.rename_all.is_some() {
                    proof {
                        lemma_container_err_persists(opts@, (i + 1) as int);
                    }
                    return Err(ShapeError::DuplicateContainerOption);
                }
                match convention_from_name(name) {
                    Some(c) => {
                        a.rename_all = Some(c);
                    },
                    None => {
                        proof {
                            lemma_container_err_persists(opts@, (i + 1) as int);
                        }
                        return Err(ShapeError::UnknownCasingConvention);
                    },
                }
            },
            ContainerOption::Unrecognized(_) => {
                proof {
                    lemma_container_err_persists(opts@, (i + 1) as int);
                }
                return Err(ShapeError::UnknownContainerOption);
            },
        }
        i += 1;
    }
    proof {
        assert(opts@.take(opts@.len() as int) =~= opts@);
    }
    Ok(a)
}

/// One step of member resolution: folds option `o` into the rename resolved
/// so far, rejecting duplicates and unknown options.
pub open spec fn spec_apply_member_option(acc: Option<Seq<u8>>, o: MemberOption) -> Result<
    Option<Seq<u8>>,
    ShapeError,
> {
    match o {
        MemberOption::Rename(label) => if acc is Some {
            Err(ShapeError::DuplicateMemberOption)
        } else {
            Ok(Some(label@))
        },
        MemberOption::Unrecognized(_) => Err(ShapeError::UnknownMemberOption),
    }
}

/// Resolution of a whole member option list, in order, first error wins; the
/// value is the member's explicit rename, if any.
pub open spec fn spec_resolve_member(opts: Seq<MemberOption>) -> Result<
    Option<Seq<u8>>,
    ShapeError,
>
    decreases opts.len(),
{
    if opts.len() == 0 {
        Ok(None)
    } else {
        match spec_resolve_member(opts.drop_last()) {
            Err(e) => Err(e),
            Ok(acc) => spec_apply_member_option(acc, opts.last()),
        }
    }
}

/// Once a prefix of a member option list fails to resolve, the whole list
/// fails with the same diagnostic.
proof fn lemma_member_err_persists(opts: Seq<MemberOption>, i: int)
    requires
        0 <= i <= opts.len(),
        spec_resolve_member(opts.take(i)) is Err,
    ensures
        spec_resolve_member(opts) == spec_resolve_member(opts.take(i)),
    decreases opts.len() - i,
{
    if i == opts.len() {
        assert(opts.take(i) =~= opts);
    } else {
        assert(opts.take(i + 1).drop_last() =~= opts.take(i));
        lemma_member_err_persists(opts, i + 1);
    }
}

/// Resolves and validates the metadata of one member (field or variant).
pub fn parse_child_attributes(opts: &Vec<MemberOption>) -> (r: Result<MemberAttributes, ShapeError>)
    ensures
        match spec_resolve_member(opts@) {
            Ok(rn) => r matches Ok(a) && a@ == rn,
            Err(e) => r matches Err(x) && x == e,
        },
{
    let mut rename: Option<Vec<u8>> = None;
    let mut i: usize = 0;
    while i < opts.len()
        invariant
            i <= opts.len(),
            spec_resolve_member(opts@.take(i as int)) == Ok::<Option<Seq<u8>>, ShapeError>(
                match rename {
                    Some(v) => Some(v@),
                    None => None,
                },
            ),
        decreases opts.len() - i,
    {
        proof {
            assert(opts@.take((i + 1) as int).drop_last() =~= opts@.take(i as int));
            assert(opts@.take((i + 1) as int).last() == opts@[i as int]);
        }
        match &opts[i] {
            MemberOption::Rename(label) => {
                if rename.is_some() {
                    proof {
                        lemma_member_err_persists(opts@, (i + 1) as int);
                    }
                    return Err(ShapeError::DuplicateMemberOption);
                }
                rename = Some(copy_bytes(label));
            },
            MemberOption::Unrecognized(_) => {
                proof {
                    lemma_member_err_persists(opts@, (i + 1) as int);
                }
                return Err(ShapeError::UnknownMemberOption);
            },
        }
        i += 1;
    }
    proof {
        assert(opts@.take(opts@.len() as int) =~= opts@);
    }
    Ok(MemberAttributes { rename })
}

/// Fails when the member's options carry a rename (or fail to resolve); used
/// by the shapes whose members take no renames.
pub open spec fn spec_member_rename_forbidden(opts: Seq<MemberOption>) -> Result<(), ShapeError> {
    match spec_resolve_member(opts) {
        Err(e) => Err(e),
        Ok(rn) => if rn is Some {
            Err(ShapeError::MemberRenameNotAllowed)
        } else {
            Ok(())
        },
    }
}

/// Every variant's options must resolve and carry no rename; in order, first
/// error wins.
pub open spec fn spec_check_variants_plain(vs: Seq<VariantDef>) -> Result<(), ShapeError>
    decreases vs.len(),
{
    if vs.len() == 0 {
        Ok(())
    } else {
        match spec_check_variants_plain(vs.drop_last()) {
            Err(e) => Err(e),
            Ok(u) => spec_member_rename_forbidden(vs.last().options@),
        }
    }
}

/// Once a prefix of the variant list fails the plain-member check, the whole
/// list fails with the same diagnostic.
proof fn lemma_variants_plain_err_persists(vs: Seq<VariantDef>, i: int)
    requires
        0 <= i <= vs.len(),
        spec_check_variants_plain(vs.take(i)) is Err,
    ensures
        spec_check_variants_plain(vs) == spec_check_variants_plain(vs.take(i)),
    decreases vs.len() - i,
{
    if i == vs.len() {
        assert(vs.take(i) =~= vs);
    } else {
        assert(vs.take(i + 1).drop_last() =~= vs.take(i));
        lemma_variants_plain_err_persists(vs, i + 1);
    }
}

/// Checks that every variant's options resolve and carry no rename.
fn scan_variants_plain(vs: &Vec<VariantDef>) -> (r: Result<(), ShapeError>)
    ensures
        r == spec_check_variants_plain(vs@),
{
    let mut i: usize = 0;
    while i < vs.len()
        invariant
            i <= vs.len(),
            spec_check_variants_plain(vs@.take(i as int)) == Ok::<(), ShapeError>(()),
        decreases vs.len() - i,
    {
        proof {
            assert(vs@.take((i + 1) as int).drop_last() =~= vs@.take(i as int));
            assert(vs@.take((i + 1) as int).last() == vs@[i as int]);
        }
        match parse_child_attributes(&vs[i].options) {
            Err(e) => {
                proof {
                    lemma_variants_plain_err_persists(vs@, (i + 1) as int);
                }
                return Err(e);
            },
            Ok(a) => {
                if a.rename.is_some() {
                    proof {
                        lemma_variants_plain_err_persists(vs@, (i + 1) as int);
                    }
                    return Err(ShapeError::MemberRenameNotAllowed);
                }
            },
        }
        i += 1;
    }
    proof {
        assert(vs@.take(vs@.len() as int) =~= vs@);
    }
    Ok(())
}

/// Every field's options must resolve and carry no rename; in order, first
/// error wins.
pub open spec fn spec_check_fields_plain(fs: Seq<FieldDef>) -> Result<(), ShapeError>
    decreases fs.len(),
{
    if fs.len() == 0 {
        Ok(())
    } else {
        match spec_check_fields_plain(fs.drop_last()) {
            Err(e) => Err(e),
            Ok(u) => spec_member_rename_forbidden(fs.last().options@),
        }
    }
}

/// Once a prefix of the field list fails the plain-member check, the whole
/// list fails with the same diagnostic.
proof fn lemma_fields_plain_err_persists(fs: Seq<FieldDef>, i: int)
    requires
        0 <= i <= fs.len(),
        spec_check_fields_plain(fs.take(i)) is Err,
    ensures
        spec_check_fields_plain(fs) == spec_check_fields_plain(fs.take(i)),
    decreases fs.len() - i,
{
    if i == fs.len() {
        assert(fs.take(i) =~= fs);
    } else {
        assert(fs.take(i + 1).drop_last() =~= fs.take(i));
        lemma_fields_plain_err_persists(fs, i + 1);
    }
}

/// Checks that every field's options resolve and carry no rename.
fn scan_fields_plain(fs: &Vec<FieldDef>) -> (r: Result<(), ShapeError>)
    ensures
        r == spec_check_fields_plain(fs@),
{
    let mut i: usize = 0;
    while i < fs.len()
        invariant
            i <= fs.len(),
            spec_check_fields_plain(fs@.take(i as int)) == Ok::<(), ShapeError>(()),
        decreases fs.len() - i,
    {
        proof {
            assert(fs@.take((i + 1) as int).drop_last() =~= fs@.take(i as int));
            assert(fs@.take((i + 1) as int).last() == fs@[i as int]);
        }
        match parse_child_attributes(&fs[i].options) {
            Err(e) => {
                proof {
                    lemma_fields_plain_err_persists(fs@, (i + 1) as int);
                }
                return Err(e);
            },
            Ok(a) => {
                if a.rename.is_some() {
                    proof {
                        lemma_fields_plain_err_persists(fs@, (i + 1) as int);
                    }
                    return Err(ShapeError::MemberRenameNotAllowed);
                }
            },
        }
        i += 1;
    }
    proof {
        assert(fs@.take(fs@.len() as int) =~= fs@);
    }
    Ok(())
}

/// Legality of resolved attributes for the transparent shape: nothing at the
/// container level beyond default, and no rename on the single inner field.
pub open spec fn spec_check_transparent(av: ContainerAttrsView, fopts: Seq<MemberOption>) -> Result<
    (),
    ShapeError,
> {
    if av.representation is Some {
        Err(ShapeError::RepresentationNotAllowed)
    } else if av.rename is Some {
        Err(ShapeError::RenameNotAllowed)
    } else if av.rename_all is Some {
        Err(ShapeError::RenameAllNotAllowed)
    } else {
        spec_member_rename_forbidden(fopts)
    }
}

/// Checks the resolved attributes of a transparent wrapper and of its single
/// inner field.
pub fn check_transparent_attributes(attrs: &ContainerAttributes, field: &UnnamedFieldDef) -> (r:
    Result<(), ShapeError>)
    ensures
        r == spec_check_transparent(attrs@, field.options@),
{
    if attrs.representation.is_some() {
        return Err(ShapeError::RepresentationNotAllowed);
    }
    if attrs.rename.is_some() {
        return Err(ShapeError::RenameNotAllowed);
    }
    if attrs.rename_all.is_some() {
        return Err(ShapeError::RenameAllNotAllowed);
    }
    match parse_child_attributes(&field.options) {
        Err(e) => Err(e),
        Ok(a) => {
            if a.rename.is_some() {
                Err(ShapeError::MemberRenameNotAllowed)
            } else {
                Ok(())
            }
        },
    }
}

/// Legality of resolved attributes for the weak-enum shape: `representation`
/// present and resolvable to a supported integer type, no `rename_all`, and
/// no renames on the variants.
pub open spec fn spec_check_weak_enum(av: ContainerAttrsView, vs: Seq<VariantDef>) -> Result<
    IntRepr,
    ShapeError,
> {
    match av.representation {
        None => Err(ShapeError::RepresentationMissing),
        Some(name) => match spec_repr_from_name(name) {
            None => Err(ShapeError::RepresentationUnsupported),
            Some(repr) => if av.rename_all is Some {
                Err(ShapeError::RenameAllNotAllowed)
            } else {
                match spec_check_variants_plain(vs) {
                    Err(e) => Err(e),
                    Ok(u) => Ok(repr),
                }
            },
        },
    }
}

/// Checks the resolved attributes of a weak enum and of its variants, and
/// resolves the declared representation.
pub fn check_weak_enum_attributes(attrs: &ContainerAttributes, variants: &Vec<VariantDef>) -> (r:
    Result<IntRepr, ShapeError>)
    ensures
        r == spec_check_weak_enum(attrs@, variants@),
{
    match &attrs.representation {
        None => Err(ShapeError::RepresentationMissing),
        Some(name) => match repr_from_name(name) {
            None => Err(ShapeError::RepresentationUnsupported),
            Some(repr) => {
                if attrs.rename_all.is_some() {
                    return Err(ShapeError::RenameAllNotAllowed);
                }
                match scan_variants_plain(variants) {
                    Err(e) => Err(e),
                    Ok(u) => Ok(repr),
                }
            },
        },
    }
}

/// Legality of resolved attributes for the strong-enum shape: no
/// `representation`; `rename`, `rename_all` and variant renames are free.
pub open spec fn spec_check_strong_enum(av: ContainerAttrsView) -> Result<(), ShapeError> {
    if av.representation is Some {
        Err(ShapeError::RepresentationNotAllowed)
    } else {
        Ok(())
    }
}

/// Checks the resolved attributes of a strong enum.
pub fn check_strong_enum_attributes(attrs: &ContainerAttributes) -> (r: Result<(), ShapeError>)
    ensures
        r == spec_check_strong_enum(attrs@),
{
    if attrs.representation.is_some() {
        Err(ShapeError::RepresentationNotAllowed)
    } else {
        Ok(())
    }
}

/// Legality of resolved attributes for the record shape: no
/// `representation`, no `rename_all`, no renames on the fields; an optional
/// container `rename` designates the backend-native composite type name.
pub open spec fn spec_check_struct(av: ContainerAttrsView, fs: Seq<FieldDef>) -> Result<
    (),
    ShapeError,
> {
    if av.representation is Some {
        Err(ShapeError::RepresentationNotAllowed)
    } else if av.rename_all is Some {
        Err(ShapeError::RenameAllNotAllowed)
    } else {
        spec_check_fields_plain(fs)
    }
}

/// Checks the resolved attributes of a record and of its fields.
pub fn check_struct_attributes(attrs: &ContainerAttributes, fields: &Vec<FieldDef>) -> (r: Result<
    (),
    ShapeError,
>)
    ensures
        r == spec_check_struct(attrs@, fields@),
{
    if attrs.representation.is_some() {
        return Err(ShapeError::RepresentationNotAllowed);
    }
    if attrs.rename_all.is_some() {
        return Err(ShapeError::RenameAllNotAllowed);
    }
    scan_fields_plain(fields)
}

} // verus!
