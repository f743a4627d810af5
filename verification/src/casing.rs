//! The casing transformer: derives a default wire label from a member
//! identifier under a naming convention. Used only when no explicit rename
//! exists for the member.
//!
//! Identifiers are ASCII byte strings; bytes outside the ASCII letter range
//! pass through unchanged.

use vstd::prelude::*;

verus! {

/// ASCII code of an underscore, inserted at word boundaries by the
/// snake-case conventions.
pub const UNDERSCORE: u8 = 95;

/// A deterministic identifier-to-label transformation.
#[derive(Clone, Copy, PartialEq, Eq, Structural, Debug)]
pub enum CasingConvention {
    /// Every ASCII letter lowercased; nothing inserted.
    Lowercase,
    /// Every ASCII letter uppercased; nothing inserted.
    Uppercase,
    /// An underscore inserted before each interior ASCII uppercase letter,
    /// then every letter lowercased.
    SnakeCase,
    /// An underscore inserted before each interior ASCII uppercase letter,
    /// then every letter uppercased.
    ScreamingSnakeCase,
}

/// Whether `b` is an ASCII uppercase letter.
pub open spec fn spec_is_upper(b: u8) -> bool {
    65 <= b <= 90
}

/// Whether `b` is an ASCII lowercase letter.
pub open spec fn spec_is_lower(b: u8) -> bool {
    97 <= b <= 122
}

/// `b` lowercased if it is an ASCII uppercase letter, else unchanged.
pub open spec fn spec_to_lower(b: u8) -> u8 {
    if spec_is_upper(b) {
        (b + 32) as u8
    } else {
        b
    }
}

/// `b` uppercased if it is an ASCII lowercase letter, else unchanged.
pub open spec fn spec_to_upper(b: u8) -> u8 {
    if spec_is_lower(b) {
        (b - 32) as u8
    } else {
        b
    }
}

/// The bytes that position `i` of identifier `s` contributes to the label
/// under convention `c`: the re-cased byte, preceded by an underscore when
/// the convention separates words and `s[i]` starts one.
pub open spec fn spec_contrib(c: CasingConvention, s: Seq<u8>, i: int) -> Seq<u8> {
    match c {
        CasingConvention::Lowercase => seq![spec_to_lower(s[i])],
        CasingConvention::Uppercase => seq![spec_to_upper(s[i])],
        CasingConvention::SnakeCase => if spec_is_upper(s[i]) && i > 0 {
            seq![UNDERSCORE, spec_to_lower(s[i])]
        } else {
            seq![spec_to_lower(s[i])]
        },
        CasingConvention::ScreamingSnakeCase => if spec_is_upper(s[i]) && i > 0 {
            seq![UNDERSCORE, spec_to_upper(s[i])]
        } else {
            seq![spec_to_upper(s[i])]
        },
    }
}

/// The label derived from identifier `s` under convention `c`: the
/// concatenation of every position's contribution, in order.
pub open spec fn spec_apply_convention(c: CasingConvention, s: Seq<u8>) -> Seq<u8>
    decreases s.len(),
{
    if s.len() == 0 {
        Seq::empty()
    } else {
        spec_apply_convention(c, s.drop_last()) + spec_contrib(c, s, s.len() - 1)
    }
}

/// `b` lowercased if it is an ASCII uppercase letter, else unchanged.
fn to_lower_byte(b: u8) -> (r: u8)
    ensures
        r == spec_to_lower(b),
{
    if 65 <= b && b <= 90 {
        b + 32
    } else {
        b
    }
}

/// `b` uppercased if it is an ASCII lowercase letter, else unchanged.
fn to_upper_byte(b: u8) -> (r: u8)
    ensures
        r == spec_to_upper(b),
{
    if 97 <= b && b <= 122 {
        b - 32
    } else {
        b
    }
}

/// Derives the default wire label of identifier `name` under convention `c`.
pub fn rename_all(name: &Vec<u8>, c: CasingConvention) -> (r: Vec<u8>)
    ensures
        r@ == spec_apply_convention(c, name@),
{
    let mut out: Vec<u8> = Vec::new();
    proof {
        assert(name@.take(0) =~= Seq::<u8>::empty());
    }
    let mut i: usize = 0;
    while i < name.len()
        invariant
            i <= name.len(),
            out@ == spec_apply_convention(c, name@.take(i as int)),
        decreases name.len() - i,
    {
        let b = name[i];
        let separated = match c {
            CasingConvention::Lowercase => false,
            CasingConvention::Uppercase => false,
            CasingConvention::SnakeCase => true,
            CasingConvention::ScreamingSnakeCase => true,
        };
        if separated && i > 0 && 65 <= b && b <= 90 {
            out.push(UNDERSCORE);
        }
        let recased = match c {
            CasingConvention::Lowercase => to_lower_byte(b),
            CasingConvention::Uppercase => to_upper_byte(b),
            CasingConvention::SnakeCase => to_lower_byte(b),
            CasingConvention::ScreamingSnakeCase => to_upper_byte(b),
        };
        out.push(recased);
        proof {
            let pre = name@.take(i as int);
            let cur = name@.take((i + 1) as int);
            assert(cur.drop_last() =~= pre);
            assert(cur[i as int] == name@[i as int]);
            assert(out@ =~= spec_apply_convention(c, pre) + spec_contrib(c, cur, i as int));
        }
        i += 1;
    }
    proof {
        assert(name@.take(name@.len() as int) =~= name@);
    }
    out
}

} // verus!
