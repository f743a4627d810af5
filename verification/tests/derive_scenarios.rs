//! End-to-end scenarios: one generation pass per subject type, then the
//! generated contract's runtime operations checked against exact wire bytes.

use encodegen::expand_derive_encode;
use encodegen::generate::{EncodePlan, GeneratedContract};
use encodegen::shape::{
    ContainerOption, FieldDef, IntRepr, MemberOption, TypeDefinition, TypeShape, UnnamedFieldDef,
    VariantDef,
};
use encodegen::wire::{encode_primitive, size_hint_primitive, IsNull, Value};

fn b(s: &str) -> Vec<u8> {
    s.as_bytes().to_vec()
}

fn expand_ok(def: TypeDefinition) -> GeneratedContract {
    expand_derive_encode(def, true)
        .expect("generation must succeed")
        .expect("a contract must be generated")
}

fn transparent_def() -> TypeDefinition {
    TypeDefinition {
        name: b("Transparent"),
        options: vec![],
        shape: TypeShape::UnnamedFields(vec![UnnamedFieldDef { ty: b("i32"), options: vec![] }]),
    }
}

fn weak_def() -> TypeDefinition {
    TypeDefinition {
        name: b("Weak"),
        options: vec![ContainerOption::Representation(b("i32"))],
        shape: TypeShape::Enumeration(vec![
            VariantDef { name: b("One"), discriminant: 0, options: vec![] },
            VariantDef { name: b("Two"), discriminant: 2, options: vec![] },
            VariantDef { name: b("Three"), discriminant: 4, options: vec![] },
        ]),
    }
}

fn strong_def() -> TypeDefinition {
    TypeDefinition {
        name: b("Strong"),
        options: vec![
            ContainerOption::Rename(b("text")),
            ContainerOption::RenameAll(b("lowercase")),
        ],
        shape: TypeShape::Enumeration(vec![
            VariantDef { name: b("One"), discriminant: 0, options: vec![] },
            VariantDef { name: b("Two"), discriminant: 1, options: vec![] },
            VariantDef {
                name: b("Three"),
                discriminant: 2,
                options: vec![MemberOption::Rename(b("four"))],
            },
        ]),
    }
}

fn inventory_def() -> TypeDefinition {
    TypeDefinition {
        name: b("InventoryItem"),
        options: vec![ContainerOption::Rename(b("inventory_item"))],
        shape: TypeShape::NamedFields(vec![
            FieldDef { name: b("name"), ty: b("String"), options: vec![] },
            FieldDef { name: b("supplier_id"), ty: b("Option<i32>"), options: vec![] },
            FieldDef { name: b("price"), ty: b("Option<i64>"), options: vec![] },
        ]),
    }
}

#[test]
fn transparent_wrapper_is_wire_identical() {
    let c = expand_ok(transparent_def());
    assert!(matches!(c.plan, EncodePlan::Delegate { .. }));
    for n in [0i64, 23523] {
        let v = Value::Int { repr: IntRepr::I32, n };
        let mut wrapped: Vec<u8> = Vec::new();
        c.encode(&v, &mut wrapped);
        let mut bare: Vec<u8> = Vec::new();
        encode_primitive(&v, &mut bare);
        assert_eq!(wrapped, bare);
        assert_eq!(c.size_hint(&v), size_hint_primitive(&v));
    }
}

#[test]
fn transparent_wrapper_over_four_byte_integer() {
    let c = expand_ok(transparent_def());
    let v = Value::Int { repr: IntRepr::I32, n: 23523 };
    let mut buf: Vec<u8> = Vec::new();
    c.encode(&v, &mut buf);
    assert_eq!(buf, vec![0x00, 0x00, 0x5b, 0xe3]);
    assert_eq!(c.size_hint(&v), 4);
}

#[test]
fn transparent_wrapper_propagates_nullability() {
    let c = expand_ok(transparent_def());
    let mut buf: Vec<u8> = Vec::new();
    assert_eq!(c.encode_nullable(&Value::Null, &mut buf), IsNull::Yes);
    assert!(buf.is_empty());
    let v = Value::Int { repr: IntRepr::I32, n: 7 };
    assert_eq!(c.encode_nullable(&v, &mut buf), IsNull::No);
    assert_eq!(buf, vec![0, 0, 0, 7]);
}

#[test]
fn weak_enum_encodes_declared_discriminant() {
    let c = expand_ok(weak_def());
    match &c.plan {
        EncodePlan::AsInteger { repr, discriminants } => {
            assert_eq!(*repr, IntRepr::I32);
            assert_eq!(discriminants, &vec![0i64, 2, 4]);
        }
        other => panic!("wrong plan: {:?}", other),
    }
    let mut buf: Vec<u8> = Vec::new();
    c.encode(&Value::Variant(1), &mut buf);
    assert_eq!(buf, vec![0, 0, 0, 2]);
    let mut bare: Vec<u8> = Vec::new();
    encode_primitive(&Value::Int { repr: IntRepr::I32, n: 2 }, &mut bare);
    assert_eq!(buf, bare);
    assert_eq!(c.size_hint(&Value::Variant(1)), 4);
}

#[test]
fn weak_enum_keeps_gaps_in_discriminants() {
    let c = expand_ok(weak_def());
    let mut buf: Vec<u8> = Vec::new();
    c.encode(&Value::Variant(0), &mut buf);
    c.encode(&Value::Variant(2), &mut buf);
    assert_eq!(buf, vec![0, 0, 0, 0, 0, 0, 0, 4]);
    let mut buf2: Vec<u8> = Vec::new();
    assert_eq!(c.encode_nullable(&Value::Variant(0), &mut buf2), IsNull::No);
}

#[test]
fn strong_enum_label_table_follows_precedence() {
    let c = expand_ok(strong_def());
    match &c.plan {
        EncodePlan::TextLabels { labels } => {
            assert_eq!(labels, &vec![b("one"), b("two"), b("four")]);
        }
        other => panic!("wrong plan: {:?}", other),
    }
    for (i, expected) in [(0usize, "one"), (1, "two"), (2, "four")] {
        let mut buf: Vec<u8> = Vec::new();
        c.encode(&Value::Variant(i), &mut buf);
        assert_eq!(buf, b(expected));
        assert_eq!(c.size_hint(&Value::Variant(i)), expected.len());
    }
}

#[test]
fn strong_enum_without_convention_uses_identifier() {
    let def = TypeDefinition {
        name: b("Plain"),
        options: vec![],
        shape: TypeShape::Enumeration(vec![
            VariantDef { name: b("Alpha"), discriminant: 0, options: vec![] },
            VariantDef { name: b("Beta"), discriminant: 1, options: vec![] },
        ]),
    };
    let c = expand_ok(def);
    let mut buf: Vec<u8> = Vec::new();
    c.encode(&Value::Variant(0), &mut buf);
    assert_eq!(buf, b("Alpha"));
}

#[test]
fn record_layout_and_size_hint() {
    let c = expand_ok(inventory_def());
    match &c.plan {
        EncodePlan::Composite { columns } => {
            assert_eq!(columns.len(), 3);
            assert_eq!(columns[0].name, b("name"));
            assert_eq!(columns[0].type_id, 25);
            assert_eq!(columns[1].name, b("supplier_id"));
            assert_eq!(columns[1].type_id, 23);
            assert_eq!(columns[2].name, b("price"));
            assert_eq!(columns[2].type_id, 20);
        }
        other => panic!("wrong plan: {:?}", other),
    }
    let v = Value::Row(vec![
        Value::Text(b("fuzzy dice")),
        Value::Int { repr: IntRepr::I32, n: 42 },
        Value::Int { repr: IntRepr::I64, n: 199 },
    ]);
    // 3 columns * 8 bytes overhead + (10 + 4 + 8) bytes of data
    assert_eq!(c.size_hint(&v), 3 * 8 + 10 + 4 + 8);
    let mut buf: Vec<u8> = Vec::new();
    c.encode(&v, &mut buf);
    let mut expected: Vec<u8> = Vec::new();
    expected.extend_from_slice(&[0, 0, 0, 25, 0, 0, 0, 10]);
    expected.extend_from_slice(b"fuzzy dice");
    expected.extend_from_slice(&[0, 0, 0, 23, 0, 0, 0, 4, 0, 0, 0, 42]);
    expected.extend_from_slice(&[0, 0, 0, 20, 0, 0, 0, 8, 0, 0, 0, 0, 0, 0, 0, 199]);
    assert_eq!(buf, expected);
    assert!(buf.len() <= c.size_hint(&v));
}

#[test]
fn record_null_field_writes_null_marker() {
    let c = expand_ok(inventory_def());
    let v = Value::Row(vec![
        Value::Text(b("fuzzy dice")),
        Value::Int { repr: IntRepr::I32, n: 42 },
        Value::Null,
    ]);
    assert_eq!(c.size_hint(&v), 3 * 8 + 10 + 4);
    let mut buf: Vec<u8> = Vec::new();
    c.encode(&v, &mut buf);
    let mut expected: Vec<u8> = Vec::new();
    expected.extend_from_slice(&[0, 0, 0, 25, 0, 0, 0, 10]);
    expected.extend_from_slice(b"fuzzy dice");
    expected.extend_from_slice(&[0, 0, 0, 23, 0, 0, 0, 4, 0, 0, 0, 42]);
    expected.extend_from_slice(&[0, 0, 0, 20, 255, 255, 255, 255]);
    assert_eq!(buf, expected);
}

#[test]
fn record_is_gated_by_backend_capability() {
    let r = expand_derive_encode(inventory_def(), false);
    assert_eq!(r, Ok(None));
}
