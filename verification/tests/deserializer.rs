use serde_xdr::de::deserializer::enum_deserializer::EnumDeserializer;
use serde_xdr::de::deserializer::struct_deserializer::StructDeserializer;
use serde_xdr::{
    DeserializationError, Deserializer, Field, FieldKind, Kind, Value, VariantKind, VariantShape,
};

fn variants() -> Vec<VariantKind> {
    vec![
        VariantKind { name: "bool", shape: VariantShape::Newtype(Box::new(Kind::Bool)) },
        VariantKind { name: "string", shape: VariantShape::Newtype(Box::new(Kind::String)) },
        VariantKind { name: "integer", shape: VariantShape::Newtype(Box::new(Kind::Integer32)) },
    ]
}

#[test]
fn deserialize_false() {
    let bytes: Vec<u8> = vec![0x00, 0x00, 0x00, 0x00];
    let mut deserializer = Deserializer::new(&bytes);

    let result = Value::deserialize(&Kind::Bool, &mut deserializer).unwrap();

    assert_eq!(deserializer.position, 4);
    assert_eq!(result, Value::Bool(false));
}

#[test]
fn deserialize_true() {
    let bytes: Vec<u8> = vec![0x00, 0x00, 0x00, 0x01];
    let mut deserializer = Deserializer::new(&bytes);

    let result = Value::deserialize(&Kind::Bool, &mut deserializer).unwrap();

    assert_eq!(deserializer.position, 4);
    assert_eq!(result, Value::Bool(true));
}

#[test]
fn tests_deserialize_i8() {
    let bytes: Vec<u8> = vec![0xff, 0xff, 0xff, 0xfe];
    let mut deserializer = Deserializer::new(&bytes);

    let result = Value::deserialize(&Kind::Integer8, &mut deserializer).unwrap();

    assert_eq!(deserializer.position, 4);
    assert_eq!(result, Value::Integer8(-2));
}

#[test]
fn tests_deserialize_i16() {
    let bytes: Vec<u8> = vec![0xff, 0xff, 0xef, 0xfe];
    let mut deserializer = Deserializer::new(&bytes);

    let result = Value::deserialize(&Kind::Integer16, &mut deserializer).unwrap();

    let value_bits: u16 = 0xeffe;
    let expected_value = -((!value_bits) as i16 + 1);

    assert_eq!(deserializer.position, 4);
    assert_eq!(result, Value::Integer16(expected_value));
}

#[test]
fn tests_deserialize_i32() {
    let bytes: Vec<u8> = vec![0x80, 0x00, 0x00, 0x00];
    let mut deserializer = Deserializer::new(&bytes);

    let result = Value::deserialize(&Kind::Integer32, &mut deserializer).unwrap();

    assert_eq!(deserializer.position, 4);
    assert_eq!(result, Value::Integer32(-2_147_483_648));
}

#[test]
fn tests_deserialize_i64() {
    let bytes: Vec<u8> = vec![0xff, 0xff, 0xff, 0xff, 0xff, 0xff, 0xff, 0xff];
    let mut deserializer = Deserializer::new(&bytes);

    let result = Value::deserialize(&Kind::Integer64, &mut deserializer).unwrap();

    assert_eq!(deserializer.position, 8);
    assert_eq!(result, Value::Integer64(-1));
}

#[test]
fn tests_deserialize_u8() {
    let bytes: Vec<u8> = vec![0x00, 0x00, 0x00, 0x0e];
    let mut deserializer = Deserializer::new(&bytes);

    let result = Value::deserialize(&Kind::UnsignedInteger8, &mut deserializer).unwrap();

    assert_eq!(deserializer.position, 4);
    assert_eq!(result, Value::UnsignedInteger8(14));
}

#[test]
fn tests_deserialize_u16() {
    let bytes: Vec<u8> = vec![0x00, 0x00, 0x10, 0x0e];
    let mut deserializer = Deserializer::new(&bytes);

    let result = Value::deserialize(&Kind::UnsignedInteger16, &mut deserializer).unwrap();

    assert_eq!(deserializer.position, 4);
    assert_eq!(result, Value::UnsignedInteger16(4110));
}

#[test]
fn tests_deserialize_u32() {
    let bytes: Vec<u8> = vec![0x80, 0x00, 0x10, 0x0e];
    let mut deserializer = Deserializer::new(&bytes);

    let result = Value::deserialize(&Kind::UnsignedInteger32, &mut deserializer).unwrap();

    assert_eq!(deserializer.position, 4);
    assert_eq!(result, Value::UnsignedInteger32(0x8000_100e));
}

#[test]
fn tests_deserialize_u64() {
    let bytes: Vec<u8> = vec![0x80, 0x00, 0x00, 0x00, 0x00, 0x00, 0x00, 0x00];
    let mut deserializer = Deserializer::new(&bytes);

    let result = Value::deserialize(&Kind::UnsignedInteger64, &mut deserializer).unwrap();

    assert_eq!(deserializer.position, 8);
    assert_eq!(result, Value::UnsignedInteger64(0x8000_0000_0000_0000));
}

#[test]
fn tests_deserialize_f32() {
    let bytes: Vec<u8> = vec![0xbf, 0x40, 0x00, 0x00];
    let mut deserializer = Deserializer::new(&bytes);

    let result = Value::deserialize(&Kind::Float, &mut deserializer).unwrap();

    assert_eq!(deserializer.position, 4);
    assert_eq!(result, Value::Float((-0.75f32).to_bits()));
}

#[test]
fn tests_deserialize_f64() {
    let bytes: Vec<u8> = vec![0xbf, 0xe8, 0x00, 0x00, 0x00, 0x00, 0x00, 0x00];
    let mut deserializer = Deserializer::new(&bytes);

    let result = Value::deserialize(&Kind::Double, &mut deserializer).unwrap();

    assert_eq!(deserializer.position, 8);
    assert_eq!(result, Value::Double((-0.75f64).to_bits()));
}

#[test]
fn tests_deserialize_opaque_without_padding() {
    let bytes: Vec<u8> = vec![
        0x00, 0x00, 0x00, 0x08,
        0x01, 0x02, 0x03, 0x04, 0xff, 0xfe, 0xfd, 0xfc,
    ];
    let mut deserializer = Deserializer::new(&bytes);

    let result = Value::deserialize(&Kind::Bytes, &mut deserializer).unwrap();

    assert_eq!(deserializer.position, 12);
    assert_eq!(result, Value::Bytes(vec![0x01, 0x02, 0x03, 0x04, 0xff, 0xfe, 0xfd, 0xfc]));
}

#[test]
fn tests_deserialize_opaque_with_1_byte_padding() {
    let bytes: Vec<u8> = vec![
        0x00, 0x00, 0x00, 0x07,
        0x01, 0x02, 0x03, 0x04, 0xff, 0xfe, 0xfd, 0x00,
    ];
    let mut deserializer = Deserializer::new(&bytes);

    let result = Value::deserialize(&Kind::Bytes, &mut deserializer).unwrap();

    assert_eq!(deserializer.position, 12);
    assert_eq!(result, Value::Bytes(vec![0x01, 0x02, 0x03, 0x04, 0xff, 0xfe, 0xfd]));
}

#[test]
fn tests_deserialize_opaque_with_2_byte_padding() {
    let bytes: Vec<u8> = vec![
        0x00, 0x00, 0x00, 0x06,
        0x01, 0x02, 0x03, 0x04, 0xff, 0xfe, 0x00, 0x00,
    ];
    let mut deserializer = Deserializer::new(&bytes);

    let result = Value::deserialize(&Kind::Bytes, &mut deserializer).unwrap();

    assert_eq!(deserializer.position, 12);
    assert_eq!(result, Value::Bytes(vec![0x01, 0x02, 0x03, 0x04, 0xff, 0xfe]));
}

#[test]
fn tests_deserialize_opaque_with_3_byte_padding() {
    let bytes: Vec<u8> = vec![
        0x00, 0x00, 0x00, 0x05,
        0x01, 0x02, 0x03, 0x04, 0xff, 0x00, 0x00, 0x00,
    ];
    let mut deserializer = Deserializer::new(&bytes);

    let result = Value::deserialize(&Kind::Bytes, &mut deserializer).unwrap();

    assert_eq!(deserializer.position, 12);
    assert_eq!(result, Value::Bytes(vec![0x01, 0x02, 0x03, 0x04, 0xff]));
}

#[test]
fn mod_deserialize_i8() {
    let bytes: Vec<u8> = vec![0xff, 0xff, 0xff, 0xfe];
    let mut deserializer = Deserializer::new(&bytes);

    let result = Value::deserialize(&Kind::Integer8, &mut deserializer).unwrap();

    assert_eq!(deserializer.position, 4);
    assert_eq!(result, Value::Integer8(-2));
}

#[test]
fn mod_deserialize_i16() {
    let bytes: Vec<u8> = vec![0xff, 0xff, 0xef, 0xfe];
    let mut deserializer = Deserializer::new(&bytes);

    let result = Value::deserialize(&Kind::Integer16, &mut deserializer).unwrap();

    let value_bits: u16 = 0xeffe;
    let expected_value = -((!value_bits) as i16 + 1);

    assert_eq!(deserializer.position, 4);
    assert_eq!(result, Value::Integer16(expected_value));
}

#[test]
fn mod_deserialize_i32() {
    let bytes: Vec<u8> = vec![0x80, 0x00, 0x00, 0x00];
    let mut deserializer = Deserializer::new(&bytes);

    let result = Value::deserialize(&Kind::Integer32, &mut deserializer).unwrap();

    assert_eq!(deserializer.position, 4);
    assert_eq!(result, Value::Integer32(-2_147_483_648));
}

#[test]
fn mod_deserialize_i64() {
    let bytes: Vec<u8> = vec![0xff, 0xff, 0xff, 0xff, 0xff, 0xff, 0xff, 0xff];
    let mut deserializer = Deserializer::new(&bytes);

    let result = Value::deserialize(&Kind::Integer64, &mut deserializer).unwrap();

    assert_eq!(deserializer.position, 8);
    assert_eq!(result, Value::Integer64(-1));
}

#[test]
fn mod_deserialize_u8() {
    let bytes: Vec<u8> = vec![0x00, 0x00, 0x00, 0x0e];
    let mut deserializer = Deserializer::new(&bytes);

    let result = Value::deserialize(&Kind::UnsignedInteger8, &mut deserializer).unwrap();

    assert_eq!(deserializer.position, 4);
    assert_eq!(result, Value::UnsignedInteger8(14));
}

#[test]
fn mod_deserialize_u16() {
    let bytes: Vec<u8> = vec![0x00, 0x00, 0x10, 0x0e];
    let mut deserializer = Deserializer::new(&bytes);

    let result = Value::deserialize(&Kind::UnsignedInteger16, &mut deserializer).unwrap();

    assert_eq!(deserializer.position, 4);
    assert_eq!(result, Value::UnsignedInteger16(4110));
}

#[test]
fn mod_deserialize_u32() {
    let bytes: Vec<u8> = vec![0x80, 0x00, 0x10, 0x0e];
    let mut deserializer = Deserializer::new(&bytes);

    let result = Value::deserialize(&Kind::UnsignedInteger32, &mut deserializer).unwrap();

    assert_eq!(deserializer.position, 4);
    assert_eq!(result, Value::UnsignedInteger32(0x8000_100e));
}

#[test]
fn mod_deserialize_u64() {
    let bytes: Vec<u8> = vec![0x80, 0x00, 0x00, 0x00, 0x00, 0x00, 0x00, 0x00];
    let mut deserializer = Deserializer::new(&bytes);

    let result = Value::deserialize(&Kind::UnsignedInteger64, &mut deserializer).unwrap();

    assert_eq!(deserializer.position, 8);
    assert_eq!(result, Value::UnsignedInteger64(0x8000_0000_0000_0000));
}

#[test]
fn mod_deserialize_f32() {
    let bytes: Vec<u8> = vec![0xbf, 0x40, 0x00, 0x00];
    let mut deserializer = Deserializer::new(&bytes);

    let result = Value::deserialize(&Kind::Float, &mut deserializer).unwrap();

    assert_eq!(deserializer.position, 4);
    assert_eq!(result, Value::Float((-0.75f32).to_bits()));
}

#[test]
fn mod_deserialize_f64() {
    let bytes: Vec<u8> = vec![0xbf, 0xe8, 0x00, 0x00, 0x00, 0x00, 0x00, 0x00];
    let mut deserializer = Deserializer::new(&bytes);

    let result = Value::deserialize(&Kind::Double, &mut deserializer).unwrap();

    assert_eq!(deserializer.position, 8);
    assert_eq!(result, Value::Double((-0.75f64).to_bits()));
}

#[test]
fn mod_deserialize_opaque_without_padding() {
    let bytes: Vec<u8> = vec![
        0x00, 0x00, 0x00, 0x08,
        0x01, 0x02, 0x03, 0x04, 0xff, 0xfe, 0xfd, 0xfc,
    ];
    let mut deserializer = Deserializer::new(&bytes);

    let result = Value::deserialize(&Kind::Bytes, &mut deserializer).unwrap();

    assert_eq!(deserializer.position, 12);
    assert_eq!(result, Value::Bytes(vec![0x01, 0x02, 0x03, 0x04, 0xff, 0xfe, 0xfd, 0xfc]));
}

#[test]
fn mod_deserialize_opaque_with_1_byte_padding() {
    let bytes: Vec<u8> = vec![
        0x00, 0x00, 0x00, 0x07,
        0x01, 0x02, 0x03, 0x04, 0xff, 0xfe, 0xfd, 0x00,
    ];
    let mut deserializer = Deserializer::new(&bytes);

    let result = Value::deserialize(&Kind::Bytes, &mut deserializer).unwrap();

    assert_eq!(deserializer.position, 12);
    assert_eq!(result, Value::Bytes(vec![0x01, 0x02, 0x03, 0x04, 0xff, 0xfe, 0xfd]));
}

#[test]
fn mod_deserialize_opaque_with_2_byte_padding() {
    let bytes: Vec<u8> = vec![
        0x00, 0x00, 0x00, 0x06,
        0x01, 0x02, 0x03, 0x04, 0xff, 0xfe, 0x00, 0x00,
    ];
    let mut deserializer = Deserializer::new(&bytes);

    let result = Value::deserialize(&Kind::Bytes, &mut deserializer).unwrap();

    assert_eq!(deserializer.position, 12);
    assert_eq!(result, Value::Bytes(vec![0x01, 0x02, 0x03, 0x04, 0xff, 0xfe]));
}

#[test]
fn mod_deserialize_opaque_with_3_byte_padding() {
    let bytes: Vec<u8> = vec![
        0x00, 0x00, 0x00, 0x05,
        0x01, 0x02, 0x03, 0x04, 0xff, 0x00, 0x00, 0x00,
    ];
    let mut deserializer = Deserializer::new(&bytes);

    let result = Value::deserialize(&Kind::Bytes, &mut deserializer).unwrap();

    assert_eq!(deserializer.position, 12);
    assert_eq!(result, Value::Bytes(vec![0x01, 0x02, 0x03, 0x04, 0xff]));
}

#[test]
fn tests_deserialize_str_without_padding() {
    let bytes: Vec<u8> = vec![0x00, 0x00, 0x00, 0x03, 'H' as u8, 'i' as u8, '!' as u8, 0x00];
    let mut deserializer = Deserializer::new(&bytes);

    let result = Value::deserialize(&Kind::String, &mut deserializer).unwrap();

    assert_eq!(deserializer.position, 8);
    assert_eq!(result, Value::String("Hi!".to_string()));
}

#[test]
fn tests_deserialize_str_with_1_byte_padding() {
    let bytes: Vec<u8> = vec![0x00, 0x00, 0x00, 0x02, 'H' as u8, 'i' as u8, 0x00, 0x00];
    let mut deserializer = Deserializer::new(&bytes);

    let result = Value::deserialize(&Kind::String, &mut deserializer).unwrap();

    assert_eq!(deserializer.position, 8);
    assert_eq!(result, Value::String("Hi".to_string()));
}

#[test]
fn tests_deserialize_str_with_2_byte_padding() {
    let bytes: Vec<u8> = vec![
        0x00, 0x00, 0x00, 0x05,
        'H' as u8, 'e' as u8, 'l' as u8, 'l' as u8,
        'o' as u8, 0x00, 0x00, 0x00,
    ];
    let mut deserializer = Deserializer::new(&bytes);

    let result = Value::deserialize(&Kind::String, &mut deserializer).unwrap();

    assert_eq!(deserializer.position, 12);
    assert_eq!(result, Value::String("Hello".to_string()));
}

#[test]
fn tests_deserialize_str_with_3_byte_padding() {
    let bytes: Vec<u8> = vec![
        0x00, 0x00, 0x00, 0x04,
        'H' as u8, 'e' as u8, 'y' as u8, '!' as u8,
        0x00, 0x00, 0x00, 0x00,
    ];
    let mut deserializer = Deserializer::new(&bytes);

    let result = Value::deserialize(&Kind::String, &mut deserializer).unwrap();

    assert_eq!(deserializer.position, 8);
    assert_eq!(result, Value::String("Hey!".to_string()));
}

#[test]
fn mod_deserialize_str_with_1_byte_padding() {
    let bytes: Vec<u8> = vec![0x00, 0x00, 0x00, 0x03, 'H' as u8, 'i' as u8, '!' as u8, 0x00];
    let mut deserializer = Deserializer::new(&bytes);

    let result = Value::deserialize(&Kind::String, &mut deserializer).unwrap();

    assert_eq!(deserializer.position, 8);
    assert_eq!(result, Value::String("Hi!".to_string()));
}

#[test]
fn mod_deserialize_str_with_2_byte_padding() {
    let bytes: Vec<u8> = vec![0x00, 0x00, 0x00, 0x02, 'H' as u8, 'i' as u8, 0x00, 0x00];
    let mut deserializer = Deserializer::new(&bytes);

    let result = Value::deserialize(&Kind::String, &mut deserializer).unwrap();

    assert_eq!(deserializer.position, 8);
    assert_eq!(result, Value::String("Hi".to_string()));
}

#[test]
fn mod_deserialize_str_with_3_byte_padding() {
    let bytes: Vec<u8> = vec![
        0x00, 0x00, 0x00, 0x05,
        'H' as u8, 'e' as u8, 'l' as u8, 'l' as u8,
        'o' as u8, 0x00, 0x00, 0x00,
    ];
    let mut deserializer = Deserializer::new(&bytes);

    let result = Value::deserialize(&Kind::String, &mut deserializer).unwrap();

    assert_eq!(deserializer.position, 12);
    assert_eq!(result, Value::String("Hello".to_string()));
}

#[test]
fn mod_deserialize_str_without_padding() {
    let bytes: Vec<u8> = vec![
        0x00, 0x00, 0x00, 0x04,
        'H' as u8, 'e' as u8, 'y' as u8, '!' as u8,
    ];
    let mut deserializer = Deserializer::new(&bytes);

    let result = Value::deserialize(&Kind::String, &mut deserializer).unwrap();

    assert_eq!(deserializer.position, 8);
    assert_eq!(result, Value::String("Hey!".to_string()));
}

#[test]
fn deserialize_none() {
    let bytes: Vec<u8> = vec![0x00, 0x00, 0x00, 0x00];
    let mut deserializer = Deserializer::new(&bytes);

    let result = Value::deserialize(&Kind::Optional(Box::new(Kind::UnsignedInteger32)), &mut deserializer).unwrap();

    assert_eq!(deserializer.position, 4);
    assert_eq!(result, Value::Optional(None));
}

#[test]
fn deserialize_some() {
    let bytes: Vec<u8> = vec![0x00, 0x00, 0x00, 0x01, 0xab, 0xcd, 0xef, 0x98];
    let mut deserializer = Deserializer::new(&bytes);

    let result = Value::deserialize(&Kind::Optional(Box::new(Kind::UnsignedInteger32)), &mut deserializer).unwrap();

    assert_eq!(deserializer.position, 8);
    assert_eq!(result, Value::Optional(Some(Box::new(Value::UnsignedInteger32(0xabcdef98)))));
}

#[test]
fn deserialize_unit() {
    let bytes: Vec<u8> = vec![];
    let mut deserializer = Deserializer::new(&bytes);

    let result = Value::deserialize(&Kind::Unit, &mut deserializer).unwrap();

    assert_eq!(deserializer.position, 0);
    assert_eq!(result, Value::Unit);
}

#[test]
fn deserialize_char() {
    let bytes: Vec<u8> = vec![0x00, 0x00, 0x27, 0x64];
    let mut deserializer = Deserializer::new(&bytes);

    let result = Value::deserialize(&Kind::Char, &mut deserializer).unwrap();

    assert_eq!(deserializer.position, 4);
    assert_eq!(result, Value::Char('\u{2764}'));
}

#[test]
fn deserialize_empty_opaque() {
    let bytes: Vec<u8> = vec![0x00, 0x00, 0x00, 0x00];
    let mut deserializer = Deserializer::new(&bytes);

    let result = Value::deserialize(&Kind::Bytes, &mut deserializer).unwrap();

    assert_eq!(deserializer.position, 4);
    assert_eq!(result, Value::Bytes(vec![]));
}

#[test]
fn deserialize_newtype_struct() {
    let bytes: Vec<u8> = vec![0xff, 0xff, 0xff, 0xf0];
    let mut deserializer = Deserializer::new(&bytes);

    let result = deserializer
        .deserialize_newtype_struct("wrapper", &Kind::Integer32)
        .unwrap();

    assert_eq!(deserializer.position, 4);
    assert_eq!(result, Value::Integer32(-16));
}

#[test]
fn deserialize_sequence() {
    let bytes: Vec<u8> = vec![
        0x00, 0x00, 0x00, 0x03, 0x00, 0x00, 0x00, 0x01, 0x00, 0x00, 0x00, 0x04,
        'H' as u8, 'e' as u8, 'y' as u8, '!' as u8, 0xff, 0xff, 0xff, 0xfb,
    ];
    let mut deserializer = Deserializer::new(&bytes);

    let length = deserializer.read_u32("sequence").unwrap();
    let result = {
        let mut sequence = deserializer.deserialize_sequence("sequence", length);

        assert_eq!(sequence.size_hint(), Some(3));

        let first = sequence.next_element_seed(&Kind::Bool).unwrap().unwrap();
        let second = sequence.next_element_seed(&Kind::String).unwrap().unwrap();
        let third = sequence.next_element_seed(&Kind::Integer32).unwrap().unwrap();

        assert_eq!(sequence.next_element_seed(&Kind::Bool).unwrap(), None);

        Value::Sequence(vec![first, second, third])
    };

    let expected_result = Value::Sequence(vec![
        Value::Bool(true),
        Value::String("Hey!".to_string()),
        Value::Integer32(-5),
    ]);

    assert_eq!(deserializer.position, 20);
    assert_eq!(result, expected_result);
}

#[test]
fn deserialize_sequence_of_one_kind() {
    let bytes: Vec<u8> = vec![
        0x00, 0x00, 0x00, 0x02, 0x00, 0x00, 0x00, 0x07, 0xff, 0xff, 0xff, 0xfb,
    ];
    let mut deserializer = Deserializer::new(&bytes);

    let result = deserializer.deserialize_seq(&Kind::Integer32).unwrap();

    assert_eq!(deserializer.position, 12);
    assert_eq!(result, vec![Value::Integer32(7), Value::Integer32(-5)]);
}

#[test]
fn deserialize_tuple() {
    let bytes: Vec<u8> = vec![
        0x00, 0x00, 0x00, 0x01, 0x00, 0x00, 0x00, 0x04, 'H' as u8, 'e' as u8,
        'y' as u8, '!' as u8, 0xff, 0xff, 0xff, 0xfb,
    ];
    let mut deserializer = Deserializer::new(&bytes);

    let result = deserializer
        .deserialize_tuple(&vec![Kind::Bool, Kind::String, Kind::Integer32])
        .unwrap();

    let expected_result = Value::Sequence(vec![
        Value::Bool(true),
        Value::String("Hey!".to_string()),
        Value::Integer32(-5),
    ]);

    assert_eq!(deserializer.position, 16);
    assert_eq!(Value::Sequence(result), expected_result);
}

#[test]
fn deserialize_struct() {
    let fields = vec![
        FieldKind { name: "bool", kind: Kind::Bool },
        FieldKind { name: "string", kind: Kind::String },
        FieldKind { name: "integer", kind: Kind::Integer32 },
    ];

    let bytes: Vec<u8> = vec![
        0x00, 0x00, 0x00, 0x01, 0x00, 0x00, 0x00, 0x03, 'H' as u8, 'i' as u8,
        '!' as u8, 0x00, 0xff, 0xff, 0xff, 0xfe,
    ];
    let mut deserializer = Deserializer::new(&bytes);

    let result = deserializer.deserialize_struct("struct", &fields).unwrap();

    let expected_result = vec![
        Field { name: "bool", value: Value::Bool(true) },
        Field { name: "string", value: Value::String("Hi!".to_string()) },
        Field { name: "integer", value: Value::Integer32(-2) },
    ];

    assert_eq!(deserializer.position, 16);
    assert_eq!(result, expected_result);
}

#[test]
fn struct_deserializer_yields_one_value_for_each_field() {
    let fields = vec![FieldKind { name: "flag", kind: Kind::Bool }];
    let bytes: Vec<u8> = vec![0x00, 0x00, 0x00, 0x01, 0x00, 0x00, 0x00, 0x00];
    let mut deserializer = Deserializer::new(&bytes);

    {
        let mut access = StructDeserializer::new("S", &fields, &mut deserializer);

        assert_eq!(access.size_hint(), Some(1));
        assert_eq!(
            access.next_element_seed(&Kind::Bool).unwrap(),
            Some(Value::Bool(true))
        );
        assert_eq!(access.next_element_seed(&Kind::Bool).unwrap(), None);
    }

    assert_eq!(deserializer.position, 4);
}

#[test]
fn deserialize_first_enum_variant() {
    let bytes: Vec<u8> = vec![0x00, 0x00, 0x00, 0x00, 0x00, 0x00, 0x00, 0x01];
    let mut deserializer = Deserializer::new(&bytes);

    let result = deserializer.deserialize_enum("enum", &variants()).unwrap();

    let expected_result = Value::NewtypeVariant {
        name: "enum",
        variant_index: 0,
        variant: "bool",
        value: Box::new(Value::Bool(true)),
    };

    assert_eq!(deserializer.position, 8);
    assert_eq!(result, expected_result);
}

#[test]
fn deserialize_second_enum_variant() {
    let bytes: Vec<u8> = vec![
        0x00, 0x00, 0x00, 0x01, 0x00, 0x00, 0x00, 0x03, 'H' as u8, 'i' as u8,
        '!' as u8, 0x00,
    ];
    let mut deserializer = Deserializer::new(&bytes);

    let result = deserializer.deserialize_enum("enum", &variants()).unwrap();

    let expected_result = Value::NewtypeVariant {
        name: "enum",
        variant_index: 1,
        variant: "string",
        value: Box::new(Value::String("Hi!".to_string())),
    };

    assert_eq!(deserializer.position, 12);
    assert_eq!(result, expected_result);
}

#[test]
fn deserialize_third_enum_variant() {
    let bytes: Vec<u8> = vec![0x00, 0x00, 0x00, 0x02, 0xff, 0xff, 0xff, 0xfd];
    let mut deserializer = Deserializer::new(&bytes);

    let result = deserializer.deserialize_enum("enum", &variants()).unwrap();

    let expected_result = Value::NewtypeVariant {
        name: "enum",
        variant_index: 2,
        variant: "integer",
        value: Box::new(Value::Integer32(-3)),
    };

    assert_eq!(deserializer.position, 8);
    assert_eq!(result, expected_result);
}

#[test]
fn deserialize_inexistent_enum_variant() {
    let bytes: Vec<u8> = vec![0x00, 0x00, 0x00, 0x03, 0xff, 0xff, 0xff, 0xfd];
    let mut deserializer = Deserializer::new(&bytes);

    let result = deserializer
        .deserialize_enum("enum", &variants())
        .unwrap_err();

    let expected_error = "deserialized an invalid enum variant: variant index is 3, \
                          valid variants are [\"bool\", \"string\", \"integer\"]";

    assert_eq!(deserializer.position, 4);
    assert_eq!(
        result,
        DeserializationError::InvalidEnumVariant {
            variant: 3,
            variants: vec!["bool", "string", "integer"],
        }
    );
    assert_eq!(result.to_string(), expected_error.to_string());
}

#[test]
fn deserialize_enum_variants_of_every_shape() {
    let shapes = vec![
        VariantKind { name: "Nothing", shape: VariantShape::Unit },
        VariantKind {
            name: "Pair",
            shape: VariantShape::Tuple(vec![Kind::UnsignedInteger8, Kind::Bool]),
        },
        VariantKind {
            name: "Point",
            shape: VariantShape::Struct(vec![
                FieldKind { name: "x", kind: Kind::Integer16 },
                FieldKind { name: "y", kind: Kind::Integer16 },
            ]),
        },
    ];

    let nothing: Vec<u8> = vec![0, 0, 0, 0];
    let mut deserializer = Deserializer::new(&nothing);
    assert_eq!(
        deserializer.deserialize_enum("Shape", &shapes).unwrap(),
        Value::UnitVariant { name: "Shape", variant_index: 0, variant: "Nothing" }
    );
    assert_eq!(deserializer.position, 4);

    let pair: Vec<u8> = vec![0, 0, 0, 1, 0, 0, 0, 9, 0, 0, 0, 1];
    let mut deserializer = Deserializer::new(&pair);
    assert_eq!(
        deserializer.deserialize_enum("Shape", &shapes).unwrap(),
        Value::TupleVariant {
            name: "Shape",
            variant_index: 1,
            variant: "Pair",
            fields: vec![Value::UnsignedInteger8(9), Value::Bool(true)],
        }
    );
    assert_eq!(deserializer.position, 12);

    let point: Vec<u8> = vec![0, 0, 0, 2, 0, 0, 0, 3, 0xff, 0xff, 0xff, 0xfc];
    let mut deserializer = Deserializer::new(&point);
    assert_eq!(
        deserializer.deserialize_enum("Shape", &shapes).unwrap(),
        Value::StructVariant {
            name: "Shape",
            variant_index: 2,
            variant: "Point",
            fields: vec![
                Field { name: "x", value: Value::Integer16(3) },
                Field { name: "y", value: Value::Integer16(-4) },
            ],
        }
    );
    assert_eq!(deserializer.position, 12);
}

#[test]
fn enum_deserializer_hands_out_the_discriminant() {
    let bytes: Vec<u8> = vec![0x00, 0x00, 0x00, 0x2a];
    let mut deserializer = Deserializer::new(&bytes);

    let access = EnumDeserializer::new("Choice", 5, "Sixth", &mut deserializer);
    let (variant, content) = access.variant_seed();

    assert_eq!(variant, 5);
    assert_eq!(
        content.newtype_variant_seed(&Kind::UnsignedInteger32).unwrap(),
        Value::UnsignedInteger32(42)
    );
    assert_eq!(deserializer.position, 4);
}
