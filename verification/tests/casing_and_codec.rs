//! The casing transformer, the name tables, and the primitive wire codec on
//! exact values.

use encodegen::attrs::{convention_from_name, repr_from_name};
use encodegen::casing::{rename_all, CasingConvention};
use encodegen::generate::wire_type_id;
use encodegen::shape::IntRepr;
use encodegen::wire::{be_bytes, encode_primitive, size_hint_primitive, Value};

fn b(s: &str) -> Vec<u8> {
    s.as_bytes().to_vec()
}

#[test]
fn lowercase_convention() {
    assert_eq!(rename_all(&b("MiXeD"), CasingConvention::Lowercase), b("mixed"));
    assert_eq!(rename_all(&b("Three"), CasingConvention::Lowercase), b("three"));
    assert_eq!(rename_all(&b(""), CasingConvention::Lowercase), b(""));
}

#[test]
fn uppercase_convention() {
    assert_eq!(rename_all(&b("MiXeD"), CasingConvention::Uppercase), b("MIXED"));
}

#[test]
fn snake_case_convention() {
    assert_eq!(rename_all(&b("FooBar"), CasingConvention::SnakeCase), b("foo_bar"));
    assert_eq!(rename_all(&b("fooBar"), CasingConvention::SnakeCase), b("foo_bar"));
    assert_eq!(rename_all(&b("Foo"), CasingConvention::SnakeCase), b("foo"));
    assert_eq!(rename_all(&b("foo_bar"), CasingConvention::SnakeCase), b("foo_bar"));
}

#[test]
fn screaming_snake_case_convention() {
    assert_eq!(
        rename_all(&b("fooBar"), CasingConvention::ScreamingSnakeCase),
        b("FOO_BAR")
    );
}

#[test]
fn convention_names_resolve() {
    assert_eq!(convention_from_name(&b("lowercase")), Some(CasingConvention::Lowercase));
    assert_eq!(convention_from_name(&b("UPPERCASE")), Some(CasingConvention::Uppercase));
    assert_eq!(convention_from_name(&b("snake_case")), Some(CasingConvention::SnakeCase));
    assert_eq!(
        convention_from_name(&b("SCREAMING_SNAKE_CASE")),
        Some(CasingConvention::ScreamingSnakeCase)
    );
    assert_eq!(convention_from_name(&b("kebab-case")), None);
}

#[test]
fn representation_names_resolve() {
    assert_eq!(repr_from_name(&b("i8")), Some(IntRepr::I8));
    assert_eq!(repr_from_name(&b("i16")), Some(IntRepr::I16));
    assert_eq!(repr_from_name(&b("i32")), Some(IntRepr::I32));
    assert_eq!(repr_from_name(&b("i64")), Some(IntRepr::I64));
    assert_eq!(repr_from_name(&b("u8")), Some(IntRepr::U8));
    assert_eq!(repr_from_name(&b("u16")), Some(IntRepr::U16));
    assert_eq!(repr_from_name(&b("u32")), Some(IntRepr::U32));
    assert_eq!(repr_from_name(&b("u64")), Some(IntRepr::U64));
    assert_eq!(repr_from_name(&b("isize")), None);
}

#[test]
fn big_endian_codec_on_exact_values() {
    assert_eq!(be_bytes(IntRepr::I32, 2), vec![0, 0, 0, 2]);
    assert_eq!(be_bytes(IntRepr::I16, 0x1234), vec![0x12, 0x34]);
    assert_eq!(be_bytes(IntRepr::U64, 1), vec![0, 0, 0, 0, 0, 0, 0, 1]);
    // truncation to the declared width keeps the low bytes
    assert_eq!(be_bytes(IntRepr::U8, 300), vec![44]);
}

#[test]
fn negative_discriminants_encode_in_twos_complement() {
    let mut buf: Vec<u8> = Vec::new();
    encode_primitive(&Value::Int { repr: IntRepr::I8, n: -1 }, &mut buf);
    assert_eq!(buf, vec![0xff]);
    let mut buf2: Vec<u8> = Vec::new();
    encode_primitive(&Value::Int { repr: IntRepr::I16, n: -2 }, &mut buf2);
    assert_eq!(buf2, vec![0xff, 0xfe]);
}

#[test]
fn primitive_size_hints_match_encoded_length() {
    let values = [
        Value::Int { repr: IntRepr::I64, n: 199 },
        Value::Text(b("fuzzy dice")),
        Value::Null,
    ];
    for v in values {
        let mut buf: Vec<u8> = Vec::new();
        encode_primitive(&v, &mut buf);
        assert_eq!(buf.len(), size_hint_primitive(&v));
    }
}

#[test]
fn column_type_identifiers() {
    assert_eq!(wire_type_id(&b("bool")), 16);
    assert_eq!(wire_type_id(&b("i16")), 21);
    assert_eq!(wire_type_id(&b("i32")), 23);
    assert_eq!(wire_type_id(&b("i64")), 20);
    assert_eq!(wire_type_id(&b("String")), 25);
    assert_eq!(wire_type_id(&b("str")), 25);
    assert_eq!(wire_type_id(&b("text")), 25);
    assert_eq!(wire_type_id(&b("Option<i32>")), 23);
    assert_eq!(wire_type_id(&b("Option<i64>")), 20);
    assert_eq!(wire_type_id(&b("Option<String>")), 25);
    assert_eq!(wire_type_id(&b("Widget")), 0);
}
