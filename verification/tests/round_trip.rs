use serde_xdr::{
    from_bytes, to_bytes, to_writer, Deserializer, Field, FieldKind, Kind, Serializer, Value,
    VariantKind, VariantShape,
};

fn shapes() -> Vec<VariantKind> {
    vec![
        VariantKind { name: "Bool", shape: VariantShape::Newtype(Box::new(Kind::Bool)) },
        VariantKind { name: "String", shape: VariantShape::Newtype(Box::new(Kind::String)) },
        VariantKind { name: "Int32", shape: VariantShape::Newtype(Box::new(Kind::Integer32)) },
        VariantKind { name: "Nothing", shape: VariantShape::Unit },
        VariantKind {
            name: "Pair",
            shape: VariantShape::Tuple(vec![Kind::Char, Kind::Double]),
        },
        VariantKind {
            name: "Point",
            shape: VariantShape::Struct(vec![
                FieldKind { name: "x", kind: Kind::Integer64 },
                FieldKind { name: "y", kind: Kind::UnsignedInteger64 },
            ]),
        },
    ]
}

fn samples() -> Vec<(Value, Kind)> {
    vec![
        (Value::Bool(true), Kind::Bool),
        (Value::Bool(false), Kind::Bool),
        (Value::Integer8(-128), Kind::Integer8),
        (Value::Integer8(127), Kind::Integer8),
        (Value::Integer16(-2), Kind::Integer16),
        (Value::Integer16(i16::MIN), Kind::Integer16),
        (Value::Integer32(i32::MIN), Kind::Integer32),
        (Value::Integer32(i32::MAX), Kind::Integer32),
        (Value::Integer64(i64::MIN), Kind::Integer64),
        (Value::Integer64(-1), Kind::Integer64),
        (Value::UnsignedInteger8(255), Kind::UnsignedInteger8),
        (Value::UnsignedInteger16(65535), Kind::UnsignedInteger16),
        (Value::UnsignedInteger32(0x8000_100e), Kind::UnsignedInteger32),
        (Value::UnsignedInteger64(u64::MAX), Kind::UnsignedInteger64),
        (Value::Float((-0.75f32).to_bits()), Kind::Float),
        (Value::Float(f32::NAN.to_bits()), Kind::Float),
        (Value::Double(1e300f64.to_bits()), Kind::Double),
        (Value::Char('\u{2764}'), Kind::Char),
        (Value::Char('\u{10ffff}'), Kind::Char),
        (Value::String("".to_string()), Kind::String),
        (Value::String("Hi!".to_string()), Kind::String),
        (Value::String("Hello".to_string()), Kind::String),
        (Value::Bytes(vec![]), Kind::Bytes),
        (Value::Bytes(vec![0xff, 0x00, 0x80]), Kind::Bytes),
        (Value::Optional(None), Kind::Optional(Box::new(Kind::String))),
        (
            Value::Optional(Some(Box::new(Value::String("x".to_string())))),
            Kind::Optional(Box::new(Kind::String)),
        ),
        (Value::Unit, Kind::Unit),
        (Value::UnitStruct { name: "Marker" }, Kind::UnitStruct { name: "Marker" }),
        (
            Value::NewtypeStruct { name: "Meters", value: Box::new(Value::Double(0)) },
            Kind::NewtypeStruct { name: "Meters", kind: Box::new(Kind::Double) },
        ),
        (Value::Sequence(vec![]), Kind::Sequence(Box::new(Kind::Bool))),
        (
            Value::Sequence(vec![
                Value::Sequence(vec![Value::UnsignedInteger8(1), Value::UnsignedInteger8(2)]),
                Value::Sequence(vec![]),
                Value::Sequence(vec![Value::UnsignedInteger8(3)]),
            ]),
            Kind::Sequence(Box::new(Kind::Sequence(Box::new(Kind::UnsignedInteger8)))),
        ),
        (
            Value::Tuple(vec![
                Value::Bool(true),
                Value::String("Hey!".to_string()),
                Value::Integer32(-5),
            ]),
            Kind::Tuple(vec![Kind::Bool, Kind::String, Kind::Integer32]),
        ),
        (
            Value::TupleStruct {
                name: "Rgb",
                fields: vec![
                    Value::UnsignedInteger8(1),
                    Value::UnsignedInteger8(2),
                    Value::UnsignedInteger8(3),
                ],
            },
            Kind::TupleStruct {
                name: "Rgb",
                fields: vec![
                    Kind::UnsignedInteger8,
                    Kind::UnsignedInteger8,
                    Kind::UnsignedInteger8,
                ],
            },
        ),
        (
            Value::Struct {
                name: "Entry",
                fields: vec![
                    Field { name: "key", value: Value::String("k".to_string()) },
                    Field { name: "value", value: Value::Optional(None) },
                ],
            },
            Kind::Struct {
                name: "Entry",
                fields: vec![
                    FieldKind { name: "key", kind: Kind::String },
                    FieldKind { name: "value", kind: Kind::Optional(Box::new(Kind::Bytes)) },
                ],
            },
        ),
        (
            Value::NewtypeVariant {
                name: "Choice",
                variant_index: 2,
                variant: "Int32",
                value: Box::new(Value::Integer32(-3)),
            },
            Kind::Enum { name: "Choice", variants: shapes() },
        ),
        (
            Value::UnitVariant { name: "Choice", variant_index: 3, variant: "Nothing" },
            Kind::Enum { name: "Choice", variants: shapes() },
        ),
        (
            Value::TupleVariant {
                name: "Choice",
                variant_index: 4,
                variant: "Pair",
                fields: vec![Value::Char('a'), Value::Double(7)],
            },
            Kind::Enum { name: "Choice", variants: shapes() },
        ),
        (
            Value::StructVariant {
                name: "Choice",
                variant_index: 5,
                variant: "Point",
                fields: vec![
                    Field { name: "x", value: Value::Integer64(-9) },
                    Field { name: "y", value: Value::UnsignedInteger64(9) },
                ],
            },
            Kind::Enum { name: "Choice", variants: shapes() },
        ),
    ]
}

#[test]
fn encodings_are_aligned() {
    for (value, _) in samples() {
        let bytes = to_bytes(&value).unwrap();

        assert_eq!(bytes.len() % 4, 0, "{:?}", value);
    }
}

#[test]
fn what_is_written_before_a_failure_is_aligned() {
    let value = Value::Tuple(vec![
        Value::String("abcde".to_string()),
        Value::Optional(Some(Box::new(Value::Dictionary))),
    ]);
    let mut buffer = vec![0xee, 0xee, 0xee, 0xee];

    assert!(to_writer(&mut buffer, &value).is_err());
    assert_eq!(
        buffer,
        vec![0xee, 0xee, 0xee, 0xee, 0, 0, 0, 5, b'a', b'b', b'c', b'd', b'e', 0, 0, 0, 0, 0, 0, 1]
    );
}

#[test]
fn decoding_an_encoding_gives_the_value_back() {
    for (value, kind) in samples() {
        let bytes = to_bytes(&value).unwrap();
        let mut deserializer = Deserializer::new(&bytes);

        let recovered = Value::deserialize(&kind, &mut deserializer).unwrap();

        assert_eq!(recovered, value);
        assert_eq!(deserializer.position, bytes.len());
    }
}

#[test]
fn decoding_stops_behind_the_value() {
    for (value, kind) in samples() {
        let mut bytes = vec![0xaa, 0xbb];

        to_writer(&mut bytes, &value).unwrap();

        let end = bytes.len();

        bytes.extend_from_slice(&[0xcc, 0xdd, 0xee]);

        let mut deserializer = Deserializer { reader: &bytes, position: 2 };
        let recovered = Value::deserialize(&kind, &mut deserializer).unwrap();

        assert_eq!(recovered, value);
        assert_eq!(deserializer.position, end);
    }
}

#[test]
fn primitive_widths() {
    let four = vec![
        Value::Bool(true),
        Value::Integer8(1),
        Value::Integer16(1),
        Value::Integer32(1),
        Value::UnsignedInteger8(1),
        Value::UnsignedInteger16(1),
        Value::UnsignedInteger32(1),
        Value::Float(1),
        Value::Char('c'),
    ];
    let eight = vec![Value::Integer64(1), Value::UnsignedInteger64(1), Value::Double(1)];

    for value in four {
        assert_eq!(to_bytes(&value).unwrap().len(), 4, "{:?}", value);
    }

    for value in eight {
        assert_eq!(to_bytes(&value).unwrap().len(), 8, "{:?}", value);
    }
}

#[test]
fn opaque_data_is_padded_with_zeros() {
    for length in 0..9usize {
        let data: Vec<u8> = (0..length).map(|byte| 0xf0 + byte as u8).collect();
        let bytes = to_bytes(&Value::Bytes(data.clone())).unwrap();
        let padding = (4 - length % 4) % 4;

        assert_eq!(bytes.len(), 4 + length + padding);
        assert_eq!(&bytes[..4], &[0, 0, 0, length as u8]);
        assert_eq!(&bytes[4..4 + length], &data[..]);
        assert!(bytes[4 + length..].iter().all(|byte| *byte == 0));
    }
}

#[test]
fn unsigned_32_bit() {
    let bytes = to_bytes(&Value::UnsignedInteger32(0x80_00_10_0e)).unwrap();

    assert_eq!(bytes, vec![0x80, 0x00, 0x10, 0x0e]);
    assert_eq!(
        from_bytes(&bytes, &Kind::UnsignedInteger32).unwrap(),
        Value::UnsignedInteger32(0x80_00_10_0e)
    );
}

#[test]
fn narrow_signed() {
    let bytes = to_bytes(&Value::Integer16(-2)).unwrap();

    assert_eq!(bytes, vec![0xff, 0xff, 0xff, 0xfe]);
    assert_eq!(from_bytes(&bytes, &Kind::Integer16).unwrap(), Value::Integer16(-2));
}

#[test]
fn string_with_1_byte_padding() {
    let bytes = to_bytes(&Value::String("Hi!".to_string())).unwrap();

    assert_eq!(bytes, vec![0x00, 0x00, 0x00, 0x03, 0x48, 0x69, 0x21, 0x00]);
    assert_eq!(
        from_bytes(&bytes, &Kind::String).unwrap(),
        Value::String("Hi!".to_string())
    );
}

#[test]
fn sequence_of_length_3() {
    let value = Value::Sequence(vec![
        Value::Bool(true),
        Value::String("Hey!".to_string()),
        Value::Integer32(-5),
    ]);

    let bytes = to_bytes(&value).unwrap();

    assert_eq!(
        bytes,
        vec![
            0x00, 0x00, 0x00, 0x03, 0x00, 0x00, 0x00, 0x01, 0x00, 0x00, 0x00, 0x04, 0x48, 0x65,
            0x79, 0x21, 0xff, 0xff, 0xff, 0xfb,
        ]
    );

    let mut deserializer = Deserializer::new(&bytes);
    let length = deserializer.read_u32("sequence").unwrap();
    let mut sequence = deserializer.deserialize_sequence("sequence", length);

    assert_eq!(sequence.next_element_seed(&Kind::Bool).unwrap(), Some(Value::Bool(true)));
    assert_eq!(
        sequence.next_element_seed(&Kind::String).unwrap(),
        Some(Value::String("Hey!".to_string()))
    );
    assert_eq!(
        sequence.next_element_seed(&Kind::Integer32).unwrap(),
        Some(Value::Integer32(-5))
    );
    assert_eq!(sequence.next_element_seed(&Kind::Integer32).unwrap(), None);
}

#[test]
fn enum_third_variant() {
    let value = Value::NewtypeVariant {
        name: "Choice",
        variant_index: 2,
        variant: "Int32",
        value: Box::new(Value::Integer32(-3)),
    };

    let bytes = to_bytes(&value).unwrap();

    assert_eq!(bytes, vec![0x00, 0x00, 0x00, 0x02, 0xff, 0xff, 0xff, 0xfd]);
    assert_eq!(
        from_bytes(&bytes, &Kind::Enum { name: "Choice", variants: shapes() }).unwrap(),
        value
    );
}

#[test]
fn serializer_hands_the_buffer_on() {
    let mut buffer = vec![1, 2, 3, 4];

    Serializer::new(&mut buffer)
        .serialize_bool(true)
        .unwrap()
        .serialize_unit()
        .unwrap()
        .serialize_u8(9)
        .unwrap();

    assert_eq!(buffer, vec![1, 2, 3, 4, 0, 0, 0, 1, 0, 0, 0, 9]);
}
