//! The runtime behaviour of a generated contract: the three operations
//! `encode`, `encode_nullable` and `size_hint`, implemented against a
//! generation plan over a model of runtime values, together with the wire
//! codec for the primitive values this core delegates to.
//!
//! Record wire layout: one entry per field in declared order, each entry a
//! 4-byte backend type identifier, a 4-byte length prefix (the null marker
//! for a null field), then the field's data bytes.

use vstd::prelude::*;

use crate::bytes::append_bytes;
use crate::generate::{ColumnPlan, EncodePlan, GeneratedContract};
use crate::shape::IntRepr;

verus! {

/// Fixed per-field overhead of a record entry: a 4-byte type identifier and
/// a 4-byte length prefix.
pub const PER_FIELD_OVERHEAD: usize = 8;

/// The 4-byte length prefix that marks a null field in a record entry.
pub const NULL_DATA_LENGTH: u64 = 0xffffffff;

/// A record field's data may be at most this long, so that its length fits
/// the backend's signed 4-byte length prefix.
pub const MAX_FIELD_DATA: usize = 0x7fffffff;

/// Whether the wire value should be represented as the wire null marker.
#[derive(Clone, Copy, PartialEq, Eq, Structural, Debug)]
pub enum IsNull {
    /// Write the null marker in place of the value.
    Yes,
    /// The encoded bytes represent the value.
    No,
}

/// A runtime value of a subject type, as the generated contract sees it:
/// primitives delegate to their own codec; enum values are the declared
/// index of their variant; record values are their field values in declared
/// order.
#[derive(PartialEq, Debug)]
pub enum Value {
    /// An integer of a declared representation.
    Int {
        /// The wire integer type.
        repr: IntRepr,
        /// The numeric value, sign-extended.
        n: i64,
    },
    /// A textual value, as its bytes.
    Text(Vec<u8>),
    /// An absent nullable value.
    Null,
    /// A value of an enumeration: the declared index of its variant.
    Variant(usize),
    /// A value of a record: one primitive value per field, in declared
    /// order.
    Row(Vec<Value>),
}

/// The low byte of `x`.
pub open spec fn spec_low_byte(x: u64) -> u8 {
    (x & 0xff) as u8
}

/// `x` truncated to the width of `repr` and written big-endian.
pub open spec fn spec_be_bytes(repr: IntRepr, x: u64) -> Seq<u8> {
    let w = repr.spec_width();
    if w == 1 {
        seq![spec_low_byte(x)]
    } else if w == 2 {
        seq![spec_low_byte(x >> 8), spec_low_byte(x)]
    } else if w == 4 {
        seq![
            spec_low_byte(x >> 24),
            spec_low_byte(x >> 16),
            spec_low_byte(x >> 8),
            spec_low_byte(x),
        ]
    } else {
        seq![
            spec_low_byte(x >> 56),
            spec_low_byte(x >> 48),
            spec_low_byte(x >> 40),
            spec_low_byte(x >> 32),
            spec_low_byte(x >> 24),
            spec_low_byte(x >> 16),
            spec_low_byte(x >> 8),
            spec_low_byte(x),
        ]
    }
}

/// The low byte of `x`.
fn low_byte(x: u64) -> (b: u8)
    ensures
        b == spec_low_byte(x),
{
    proof {
        assert(x & 0xff < 256) by (bit_vector);
    }
    (x & 0xff) as u8
}

/// `x` truncated to the width of `repr` and written big-endian.
pub fn be_bytes(repr: IntRepr, x: u64) -> (r: Vec<u8>)
    ensures
        r@ == spec_be_bytes(repr, x),
{
    let w = repr.width();
    let mut out: Vec<u8> = Vec::new();
    if w == 1 {
        out.push(low_byte(x));
    } else if w == 2 {
        out.push(low_byte(x >> 8));
        out.push(low_byte(x));
    } else if w == 4 {
        out.push(low_byte(x >> 24));
        out.push(low_byte(x >> 16));
        out.push(low_byte(x >> 8));
        out.push(low_byte(x));
    } else {
        out.push(low_byte(x >> 56));
        out.push(low_byte(x >> 48));
        out.push(low_byte(x >> 40));
        out.push(low_byte(x >> 32));
        out.push(low_byte(x >> 24));
        out.push(low_byte(x >> 16));
        out.push(low_byte(x >> 8));
        out.push(low_byte(x));
    }
    proof {
        assert(out@ =~= spec_be_bytes(repr, x));
    }
    out
}

/// Whether `v` is a primitive value (one with a codec of its own).
pub open spec fn spec_is_primitive(v: Value) -> bool {
    match v {
        Value::Int { .. } => true,
        Value::Text(_) => true,
        Value::Null => true,
        _ => false,
    }
}

/// The bytes a primitive value encodes to on its own: an integer big-endian
/// at its declared width, a text as its bytes, a null as nothing.
pub open spec fn spec_prim_bytes(v: Value) -> Seq<u8> {
    match v {
        Value::Int { repr, n } => spec_be_bytes(repr, n as u64),
        Value::Text(t) => t@,
        _ => Seq::empty(),
    }
}

/// The size hint of a primitive value alone.
pub open spec fn spec_prim_size(v: Value) -> nat {
    match v {
        Value::Int { repr, n } => repr.spec_width(),
        Value::Text(t) => t@.len(),
        _ => 0,
    }
}

/// A primitive's size hint equals its encoded length exactly.
pub proof fn lemma_prim_bytes_len(v: Value)
    requires
        spec_is_primitive(v),
    ensures
        spec_prim_bytes(v).len() == spec_prim_size(v),
{
}

/// Encodes a primitive value on its own, appending to `buf`.
pub fn encode_primitive(v: &Value, buf: &mut Vec<u8>)
    requires
        spec_is_primitive(*v),
    ensures
        final(buf)@ == old(buf)@ + spec_prim_bytes(*v),
{
    match v {
        Value::Int { repr, n } => {
            let b = be_bytes(*repr, *n as u64);
            append_bytes(buf, &b);
        },
        Value::Text(t) => {
            append_bytes(buf, t);
        },
        _ => {
            proof {
                assert(old(buf)@ + spec_prim_bytes(*v) =~= old(buf)@);
            }
        },
    }
}

/// The size hint of a primitive value alone.
pub fn size_hint_primitive(v: &Value) -> (r: usize)
    requires
        spec_is_primitive(*v),
    ensures
        r == spec_prim_size(*v),
{
    match v {
        Value::Int { repr, n } => repr.width(),
        Value::Text(t) => t.len(),
        _ => 0,
    }
}

/// The 4-byte length prefix of one record entry: the data length, or the
/// null marker for a null field.
pub open spec fn spec_len_marker(v: Value) -> Seq<u8> {
    if v is Null {
        spec_be_bytes(IntRepr::U32, NULL_DATA_LENGTH)
    } else {
        spec_be_bytes(IntRepr::U32, spec_prim_bytes(v).len() as u64)
    }
}

/// One record entry: the column's backend type identifier, the length
/// prefix, then the data bytes.
pub open spec fn spec_field_entry(col: ColumnPlan, v: Value) -> Seq<u8> {
    spec_be_bytes(IntRepr::U32, col.type_id as u64) + spec_len_marker(v) + spec_prim_bytes(v)
}

/// The bytes of a whole record: its entries in declared field order.
pub open spec fn spec_row_bytes(cols: Seq<ColumnPlan>, vals: Seq<Value>) -> Seq<u8>
    decreases cols.len(),
{
    if cols.len() == 0 || vals.len() == 0 {
        Seq::empty()
    } else {
        spec_row_bytes(cols.drop_last(), vals.drop_last()) + spec_field_entry(
            cols.last(),
            vals.last(),
        )
    }
}

/// The sum of the field values' own size hints.
pub open spec fn spec_row_sizes(vals: Seq<Value>) -> nat
    decreases vals.len(),
{
    if vals.len() == 0 {
        0
    } else {
        spec_row_sizes(vals.drop_last()) + spec_prim_size(vals.last())
    }
}

/// A prefix of the fields never outweighs the whole record.
proof fn lemma_row_sizes_mono(vals: Seq<Value>, i: int)
    requires
        0 <= i <= vals.len(),
    ensures
        spec_row_sizes(vals.take(i)) <= spec_row_sizes(vals),
    decreases vals.len() - i,
{
    if i == vals.len() {
        assert(vals.take(i) =~= vals);
    } else {
        assert(vals.take(i + 1).drop_last() =~= vals.take(i));
        lemma_row_sizes_mono(vals, i + 1);
    }
}

/// A record's bytes are exactly the per-field overhead plus the fields' own
/// data, so the record size hint never undercounts.
proof fn lemma_row_bytes_len(cols: Seq<ColumnPlan>, vals: Seq<Value>)
    requires
        cols.len() == vals.len(),
        forall|k: int| 0 <= k < vals.len() ==> spec_is_primitive(#[trigger] vals[k]),
    ensures
        spec_row_bytes(cols, vals).len() == cols.len() * (PER_FIELD_OVERHEAD as nat) + spec_row_sizes(vals),
    decreases cols.len(),
{
    if cols.len() == 0 {
    } else {
        lemma_row_bytes_len(cols.drop_last(), vals.drop_last());
        lemma_prim_bytes_len(vals.last());
        assert((cols.len() - 1) * (PER_FIELD_OVERHEAD as int) + (PER_FIELD_OVERHEAD as int)
            == cols.len() * (PER_FIELD_OVERHEAD as int)) by (nonlinear_arith);
    }
}

impl GeneratedContract {
    /// Whether `v` is a value of the subject type as this contract's plan
    /// models it: a primitive under a transparent wrapper, a declared
    /// variant index under an enum plan, a row of primitive field values
    /// (each within the length prefix's range) under a record plan.
    pub open spec fn spec_accepts(self, v: Value) -> bool {
        match self.plan {
            EncodePlan::Delegate { .. } => spec_is_primitive(v),
            EncodePlan::AsInteger { repr, discriminants } => v matches Value::Variant(i) && i
                < discriminants@.len(),
            EncodePlan::TextLabels { labels } => v matches Value::Variant(i) && i < labels@.len(),
            EncodePlan::Composite { columns } => v matches Value::Row(vals) && vals@.len()
                == columns@.len() && forall|k: int|
                0 <= k < vals@.len() ==> spec_is_primitive(#[trigger] vals@[k]) && spec_prim_size(
                    vals@[k],
                ) <= MAX_FIELD_DATA,
        }
    }

    /// The bytes `encode` appends for value `v`.
    pub open spec fn spec_encoded(self, v: Value) -> Seq<u8> {
        match self.plan {
            EncodePlan::Delegate { .. } => spec_prim_bytes(v),
            EncodePlan::AsInteger { repr, discriminants } => match v {
                Value::Variant(i) => spec_be_bytes(repr, discriminants@[i as int] as u64),
                _ => Seq::empty(),
            },
            EncodePlan::TextLabels { labels } => match v {
                Value::Variant(i) => labels@[i as int]@,
                _ => Seq::empty(),
            },
            EncodePlan::Composite { columns } => match v {
                Value::Row(vals) => spec_row_bytes(columns@, vals@),
                _ => Seq::empty(),
            },
        }
    }

    /// The byte-count estimate `size_hint` returns for value `v`.
    pub open spec fn spec_size(self, v: Value) -> nat {
        match self.plan {
            EncodePlan::Delegate { .. } => spec_prim_size(v),
            EncodePlan::AsInteger { repr, discriminants } => repr.spec_width(),
            EncodePlan::TextLabels { labels } => match v {
                Value::Variant(i) => labels@[i as int]@.len(),
                _ => 0,
            },
            EncodePlan::Composite { columns } => match v {
                Value::Row(vals) => columns@.len() * (PER_FIELD_OVERHEAD as nat) + spec_row_sizes(vals@),
                _ => 0,
            },
        }
    }

    /// Whether `encode_nullable` reports the null marker for value `v`: only
    /// a transparent wrapper propagates its inner value's nullability.
    pub open spec fn spec_is_null(self, v: Value) -> bool {
        self.plan is Delegate && v is Null
    }

    /// Writes the wire bytes of `v`, appending to `buf`.
    pub fn encode(&self, v: &Value, buf: &mut Vec<u8>)
        requires
            self.spec_accepts(*v),
        ensures
            final(buf)@ == old(buf)@ + self.spec_encoded(*v),
    {
        match &self.plan {
            EncodePlan::Delegate { .. } => {
                encode_primitive(v, buf);
            },
            EncodePlan::AsInteger { repr, discriminants } => {
                match v {
                    Value::Variant(ix) => {
                        let b = be_bytes(*repr, discriminants[*ix] as u64);
                        append_bytes(buf, &b);
                    },
                    _ => {
                        proof {
                            assert(old(buf)@ + self.spec_encoded(*v) =~= old(buf)@);
                        }
                    },
                }
            },
            EncodePlan::TextLabels { labels } => {
                match v {
                    Value::Variant(ix) => {
                        append_bytes(buf, &labels[*ix]);
                    },
                    _ => {
                        proof {
                            assert(old(buf)@ + self.spec_encoded(*v) =~= old(buf)@);
                        }
                    },
                }
            },
            EncodePlan::Composite { columns } => {
                match v {
                    Value::Row(vals) => {
                        proof {
                            assert(old(buf)@ + spec_row_bytes(columns@.take(0), vals@.take(0))
                                =~= old(buf)@);
                        }
                        let mut j: usize = 0;
                        while j < vals.len()
                            invariant
                                j <= vals.len(),
                                vals@.len() == columns@.len(),
                                forall|k: int|
                                    0 <= k < vals@.len() ==> spec_is_primitive(
                                        #[trigger] vals@[k],
                                    ),
                                buf@ == old(buf)@ + spec_row_bytes(
                                    columns@.take(j as int),
                                    vals@.take(j as int),
                                ),
                            decreases vals.len() - j,
                        {
                            let tid = be_bytes(IntRepr::U32, columns[j].type_id as u64);
                            append_bytes(buf, &tid);
                            let is_null_field = match &vals[j] {
                                Value::Null => true,
                                _ => false,
                            };
                            if is_null_field {
                                let m = be_bytes(IntRepr::U32, NULL_DATA_LENGTH);
                                append_bytes(buf, &m);
                            } else {
                                let dl = size_hint_primitive(&vals[j]);
                                proof {
                                    lemma_prim_bytes_len(vals@[j as int]);
                                }
                                let m = be_bytes(IntRepr::U32, dl as u64);
                                append_bytes(buf, &m);
                            }
                            encode_primitive(&vals[j], buf);
                            proof {
                                assert(columns@.take((j + 1) as int).drop_last() =~= columns@.take(
                                    j as int,
                                ));
                                assert(vals@.take((j + 1) as int).drop_last() =~= vals@.take(
                                    j as int,
                                ));
                                assert(columns@.take((j + 1) as int).last() == columns@[j as int]);
                                assert(vals@.take((j + 1) as int).last() == vals@[j as int]);
                                assert(buf@ =~= old(buf)@ + spec_row_bytes(
                                    columns@.take((j + 1) as int),
                                    vals@.take((j + 1) as int),
                                ));
                            }
                            j += 1;
                        }
                        proof {
                            assert(columns@.take(vals@.len() as int) =~= columns@);
                            assert(vals@.take(vals@.len() as int) =~= vals@);
                        }
                    },
                    _ => {
                        proof {
                            assert(old(buf)@ + self.spec_encoded(*v) =~= old(buf)@);
                        }
                    },
                }
            },
        }
    }

    /// Writes the wire bytes of `v` and additionally reports whether the
    /// value should be represented as the wire null marker.
    pub fn encode_nullable(&self, v: &Value, buf: &mut Vec<u8>) -> (is_null: IsNull)
        requires
            self.spec_accepts(*v),
        ensures
            final(buf)@ == old(buf)@ + self.spec_encoded(*v),
            is_null == (if self.spec_is_null(*v) {
                IsNull::Yes
            } else {
                IsNull::No
            }),
    {
        let delegate_null = match (&self.plan, v) {
            (EncodePlan::Delegate { .. }, Value::Null) => true,
            _ => false,
        };
        if delegate_null {
            proof {
                assert(old(buf)@ + self.spec_encoded(*v) =~= old(buf)@);
            }
            IsNull::Yes
        } else {
            self.encode(v, buf);
            IsNull::No
        }
    }

    /// A byte-count upper estimate for pre-sizing the buffer `encode` fills:
    /// never an undercount (see `lemma_size_hint_sound`).
    pub fn size_hint(&self, v: &Value) -> (r: usize)
        requires
            self.spec_accepts(*v),
            self.spec_size(*v) <= usize::MAX,
        ensures
            r == self.spec_size(*v),
    {
        match &self.plan {
            EncodePlan::Delegate { .. } => size_hint_primitive(v),
            EncodePlan::AsInteger { repr, discriminants } => repr.width(),
            EncodePlan::TextLabels { labels } => {
                match v {
                    Value::Variant(ix) => labels[*ix].len(),
                    _ => 0,
                }
            },
            EncodePlan::Composite { columns } => {
                match v {
                    Value::Row(vals) => {
                        proof {
                            assert(columns@.len() * (PER_FIELD_OVERHEAD as nat) <= self.spec_size(*v));
                        }
                        let mut total: usize = columns.len() * PER_FIELD_OVERHEAD;
                        proof {
                            assert(spec_row_sizes(vals@.take(0)) == 0);
                        }
                        let mut j: usize = 0;
                        while j < vals.len()
                            invariant
                                j <= vals.len(),
                                vals@.len() == columns@.len(),
                                forall|k: int|
                                    0 <= k < vals@.len() ==> spec_is_primitive(
                                        #[trigger] vals@[k],
                                    ),
                                columns@.len() * (PER_FIELD_OVERHEAD as nat) + spec_row_sizes(vals@)
                                    <= usize::MAX,
                                total == columns@.len() * (PER_FIELD_OVERHEAD as nat) + spec_row_sizes(
                                    vals@.take(j as int),
                                ),
                            decreases vals.len() - j,
                        {
                            proof {
                                assert(vals@.take((j + 1) as int).drop_last() =~= vals@.take(
                                    j as int,
                                ));
                                assert(vals@.take((j + 1) as int).last() == vals@[j as int]);
                                lemma_row_sizes_mono(vals@, (j + 1) as int);
                            }
                            let dl = size_hint_primitive(&vals[j]);
                            total = total + dl;
                            j += 1;
                        }
                        proof {
                            assert(vals@.take(vals@.len() as int) =~= vals@);
                        }
                        total
                    },
                    _ => 0,
                }
            },
        }
    }
}


/// Wire identity of a transparent wrapper: the generated operations equal
/// the inner value's own codec exactly — the same bytes, the same size
/// hint, and the inner value's nullability propagated verbatim.
pub proof fn lemma_transparent_wire_identity(c: GeneratedContract, v: Value)
    requires
        c.plan matches EncodePlan::Delegate { .. },
        c.spec_accepts(v),
    ensures
        c.spec_encoded(v) == spec_prim_bytes(v),
        c.spec_size(v) == spec_prim_size(v),
        c.spec_is_null(v) == (v is Null),
{
}

/// A weak enum encodes a variant exactly as the bare integer equal to the
/// variant's declared discriminant, in the declared representation.
pub proof fn lemma_weak_enum_matches_integer(c: GeneratedContract, i: usize)
    requires
        c.plan matches EncodePlan::AsInteger { .. },
        c.spec_accepts(Value::Variant(i)),
    ensures
        match c.plan {
            EncodePlan::AsInteger { repr, discriminants } => {
                &&& c.spec_encoded(Value::Variant(i)) == spec_prim_bytes(
                    Value::Int { repr, n: discriminants@[i as int] },
                )
                &&& c.spec_size(Value::Variant(i)) == spec_prim_size(
                    Value::Int { repr, n: discriminants@[i as int] },
                )
            },
            _ => true,
        },
{
}

/// A strong enum encodes a variant exactly as the textual encoding of the
/// variant's table label, and its size hint is that label's own.
pub proof fn lemma_strong_enum_encodes_label(c: GeneratedContract, i: usize)
    requires
        c.plan matches EncodePlan::TextLabels { .. },
        c.spec_accepts(Value::Variant(i)),
    ensures
        match c.plan {
            EncodePlan::TextLabels { labels } => {
                &&& c.spec_encoded(Value::Variant(i)) == labels@[i as int]@
                &&& c.spec_size(Value::Variant(i)) == labels@[i as int]@.len()
            },
            _ => true,
        },
{
}

/// A record's size hint is the column count times the fixed per-field
/// overhead plus the sum of the fields' own size hints.
pub proof fn lemma_record_size_hint(c: GeneratedContract, v: Value)
    requires
        c.plan matches EncodePlan::Composite { .. },
        c.spec_accepts(v),
    ensures
        match c.plan {
            EncodePlan::Composite { columns } => match v {
                Value::Row(vals) => c.spec_size(v) == columns@.len() * (PER_FIELD_OVERHEAD as nat)
                    + spec_row_sizes(vals@),
                _ => true,
            },
            _ => true,
        },
{
}

/// The size hint never undercounts: whatever the strategy, the bytes that
/// `encode` writes for an accepted value are at most `size_hint` of it.
pub proof fn lemma_size_hint_sound(c: GeneratedContract, v: Value)
    requires
        c.spec_accepts(v),
    ensures
        c.spec_encoded(v).len() <= c.spec_size(v),
{
    match c.plan {
        EncodePlan::Delegate { .. } => {
            lemma_prim_bytes_len(v);
        },
        EncodePlan::AsInteger { repr, discriminants } => {
        },
        EncodePlan::TextLabels { labels } => {
        },
        EncodePlan::Composite { columns } => {
            match v {
                Value::Row(vals) => {
                    lemma_row_bytes_len(columns@, vals@);
                },
                _ => {},
            }
        },
    }
}

} // verus!
