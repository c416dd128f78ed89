use serde_xdr::{SerializationError, Serializer, Value};

fn bytes_of(mut value: u32) -> Vec<u8> {
    let mut bytes = Vec::with_capacity(4);

    for _ in 0..4 {
        let byte = (value >> 24) as u8;

        bytes.push(byte);

        value <<= 8;
    }

    bytes
}

fn bytes_of_hyper(mut value: u64) -> Vec<u8> {
    let mut bytes = Vec::with_capacity(8);

    for _ in 0..8 {
        let byte = (value >> 56) as u8;

        bytes.push(byte);

        value <<= 8;
    }

    bytes
}

fn bytes_of_f32(value: f32) -> Vec<u8> {
    bytes_of(value.to_bits())
}

fn bytes_of_f64(value: f64) -> Vec<u8> {
    bytes_of_hyper(value.to_bits())
}

fn bytes_of_opaque(opaque: &[u8], padding_length: usize) -> Vec<u8> {
    let padded_length = 4 + opaque.len() + padding_length;

    let mut bytes = bytes_of(opaque.len() as u32);

    bytes.append(&mut opaque.iter().cloned().collect());
    bytes.resize(padded_length, 0);

    bytes
}

fn bytes_of_str(string: &str, padding_length: usize) -> Vec<u8> {
    bytes_of_opaque(string.as_bytes(), padding_length)
}

#[test]
fn serialize_i8() {
    let mut buffer = Vec::new();
    let value = -120;

    Serializer::new(&mut buffer).serialize_i8(value).unwrap();

    assert_eq!(buffer, bytes_of(value as u32));
}

#[test]
fn serialize_i16() {
    let mut buffer = Vec::new();
    let value = -15000;

    Serializer::new(&mut buffer).serialize_i16(value).unwrap();

    assert_eq!(buffer, bytes_of(value as u32));
}

#[test]
fn serialize_i32() {
    let mut buffer = Vec::new();
    let value = -1785082;

    Serializer::new(&mut buffer).serialize_i32(value).unwrap();

    assert_eq!(buffer, bytes_of(value as u32));
}

#[test]
fn serialize_u8() {
    let mut buffer = Vec::new();
    let value = 249;

    Serializer::new(&mut buffer).serialize_u8(value).unwrap();

    assert_eq!(buffer, bytes_of(value as u32));
}

#[test]
fn serialize_u16() {
    let mut buffer = Vec::new();
    let value = 65412;

    Serializer::new(&mut buffer).serialize_u16(value).unwrap();

    assert_eq!(buffer, bytes_of(value as u32));
}

#[test]
fn serialize_u32() {
    let mut buffer = Vec::new();
    let value = 4230834;

    Serializer::new(&mut buffer).serialize_u32(value).unwrap();

    assert_eq!(buffer, bytes_of(value));
}

#[test]
fn serialize_char() {
    let mut buffer = Vec::new();
    let value = '\u{2764}';

    Serializer::new(&mut buffer).serialize_char(value).unwrap();

    assert_eq!(buffer, bytes_of(value as u32));
}

#[test]
fn serialize_enum() {
    let mut buffer = Vec::new();
    let variant_index = 300;

    Serializer::new(&mut buffer)
        .serialize_unit_variant("name", variant_index, "4")
        .unwrap();

    assert_eq!(buffer, bytes_of(variant_index));
}

#[test]
fn serialize_true() {
    let mut buffer = Vec::new();

    Serializer::new(&mut buffer).serialize_bool(true).unwrap();

    assert_eq!(buffer, bytes_of(1));
}

#[test]
fn serialize_false() {
    let mut buffer = Vec::new();

    Serializer::new(&mut buffer).serialize_bool(false).unwrap();

    assert_eq!(buffer, bytes_of(0));
}

#[test]
fn serialize_i64() {
    let mut buffer = Vec::new();
    let value = 6_980_010_427_672;

    Serializer::new(&mut buffer).serialize_i64(value).unwrap();

    assert_eq!(buffer, bytes_of_hyper(value as u64));
}

#[test]
fn serialize_negative_i64() {
    let mut buffer = Vec::new();
    let value: i64 = -2;

    Serializer::new(&mut buffer).serialize_i64(value).unwrap();

    assert_eq!(buffer, vec![0xff, 0xff, 0xff, 0xff, 0xff, 0xff, 0xff, 0xfe]);
}

#[test]
fn serialize_u64() {
    let mut buffer = Vec::new();
    let value = 27_422_481_429;

    Serializer::new(&mut buffer).serialize_u64(value).unwrap();

    assert_eq!(buffer, bytes_of_hyper(value));
}

#[test]
fn serialize_f32() {
    let mut buffer = Vec::new();
    let value: f32 = 0.002708;

    Serializer::new(&mut buffer)
        .serialize_f32(value.to_bits())
        .unwrap();

    assert_eq!(buffer, bytes_of_f32(value));
}

#[test]
fn serialize_f64() {
    let mut buffer = Vec::new();
    let value: f64 = 0.0000000013073298;

    Serializer::new(&mut buffer)
        .serialize_f64(value.to_bits())
        .unwrap();

    assert_eq!(buffer, bytes_of_f64(value));
}

#[test]
fn serialize_opaque_without_padding() {
    let mut buffer = Vec::new();
    let value = vec![1, 2, 3, 4, 8, 7, 6, 5];

    Serializer::new(&mut buffer)
        .serialize_bytes(&value)
        .unwrap();

    assert_eq!(buffer, bytes_of_opaque(&value, 0));
}

#[test]
fn serialize_opaque_with_1_byte_padding() {
    let mut buffer = Vec::new();
    let value = vec![1, 2, 3, 4, 8, 7, 6, 5, 9, 10, 11];

    Serializer::new(&mut buffer)
        .serialize_bytes(&value)
        .unwrap();

    assert_eq!(buffer, bytes_of_opaque(&value, 1));
}

#[test]
fn serialize_opaque_with_2_byte_padding() {
    let mut buffer = Vec::new();
    let value = vec![1, 2, 3, 4, 8, 7, 6, 5, 9, 10];

    Serializer::new(&mut buffer)
        .serialize_bytes(&value)
        .unwrap();

    assert_eq!(buffer, bytes_of_opaque(&value, 2));
}

#[test]
fn serialize_opaque_with_3_byte_padding() {
    let mut buffer = Vec::new();
    let value = vec![1, 2, 3, 4, 8, 7, 6, 5, 9];

    Serializer::new(&mut buffer)
        .serialize_bytes(&value)
        .unwrap();

    assert_eq!(buffer, bytes_of_opaque(&value, 3));
}

#[test]
fn serialize_empty_opaque() {
    let mut buffer = Vec::new();

    Serializer::new(&mut buffer).serialize_bytes(&[]).unwrap();

    assert_eq!(buffer, vec![0, 0, 0, 0]);
}

#[test]
fn serialize_string_with_1_byte_padding() {
    let mut buffer = Vec::new();
    let value = "a simple string";

    Serializer::new(&mut buffer).serialize_str(&value).unwrap();

    assert_eq!(buffer, bytes_of_str(value, 1));
}

#[test]
fn serialize_string_with_2_byte_padding() {
    let mut buffer = Vec::new();
    let value = "a simple string...";

    Serializer::new(&mut buffer).serialize_str(&value).unwrap();

    assert_eq!(buffer, bytes_of_str(value, 2));
}

#[test]
fn serialize_string_with_3_byte_padding() {
    let mut buffer = Vec::new();
    let value = "a string.";

    Serializer::new(&mut buffer).serialize_str(&value).unwrap();

    assert_eq!(buffer, bytes_of_str(value, 3));
}

#[test]
fn serialize_string_without_padding() {
    let mut buffer = Vec::new();
    let value = "a simple string!";

    Serializer::new(&mut buffer).serialize_str(&value).unwrap();

    assert_eq!(buffer, bytes_of_str(value, 0));
}

#[test]
fn serialize_string_that_is_not_ascii() {
    let mut buffer = Vec::new();
    let value = "caf\u{e9}";

    let error = Serializer::new(&mut buffer)
        .serialize_str(&value)
        .err()
        .unwrap();

    assert_eq!(
        error,
        SerializationError::StringNotAscii { string: value.to_string() }
    );
    assert_eq!(buffer.len(), 0);
    assert_eq!(
        error.to_string(),
        "string is not ASCII encoded: caf\u{e9}".to_string()
    );
}

#[test]
fn serialize_void() {
    let mut buffer = Vec::new();

    Serializer::new(&mut buffer).serialize_unit().unwrap();

    assert_eq!(buffer.len(), 0);
}

#[test]
fn serialize_unit_struct() {
    let mut buffer = Vec::new();

    Serializer::new(&mut buffer)
        .serialize_unit_struct("name")
        .unwrap();

    assert_eq!(buffer.len(), 0);
}

#[test]
fn serialize_wrapped_type() {
    let mut buffer = Vec::new();
    let value = 4230;

    Serializer::new(&mut buffer)
        .serialize_newtype_struct("wrapped_u32", &Value::UnsignedInteger32(value))
        .unwrap();

    assert_eq!(buffer, bytes_of(value));
}

#[test]
fn serialize_union() {
    let mut buffer = Vec::new();
    let value = "a simple string";
    let variant_index = 5;

    Serializer::new(&mut buffer)
        .serialize_newtype_variant(
            "union",
            variant_index,
            "variant",
            &Value::String(value.to_string()),
        )
        .unwrap();

    let mut expected_bytes = bytes_of(variant_index);

    expected_bytes.append(&mut bytes_of_str(value, 1));

    assert_eq!(buffer, expected_bytes);
}

#[test]
fn serialize_none() {
    let mut buffer = Vec::new();

    Serializer::new(&mut buffer).serialize_none().unwrap();

    assert_eq!(buffer, bytes_of(0));
}

#[test]
fn serialize_some() {
    let mut buffer = Vec::new();
    let value: u32 = 1000;

    Serializer::new(&mut buffer)
        .serialize_some(&Value::UnsignedInteger32(value))
        .unwrap();

    let mut expected_bytes = bytes_of(1);

    expected_bytes.append(&mut bytes_of(value));

    assert_eq!(buffer, expected_bytes);
}

#[test]
fn serialize_some_that_fails() {
    let mut buffer = Vec::new();

    let error = Serializer::new(&mut buffer)
        .serialize_some(&Value::Dictionary)
        .err()
        .unwrap();

    assert_eq!(
        error,
        SerializationError::Failure {
            what: "a value optional data of type 'some'".to_string(),
            cause: Box::new(SerializationError::MapNotSupported),
        }
    );
    assert_eq!(buffer, bytes_of(1));
}

#[test]
fn serialize_map() {
    let mut buffer = Vec::new();

    let error = Serializer::new(&mut buffer)
        .serialize_map(Some(2))
        .err()
        .unwrap();

    assert_eq!(error, SerializationError::MapNotSupported);
    assert_eq!(buffer.len(), 0);
}

#[test]
fn serialize_tuple_variant() {
    let mut buffer = Vec::new();

    let variant_index = 5;
    let tuple_elements = 2;
    let first_element = false;
    let second_element = -3i16;

    let mut serializer = Serializer::new(&mut buffer)
        .serialize_tuple_variant(
            "MyEnum",
            variant_index,
            "SixthVariant",
            tuple_elements,
        )
        .unwrap();

    serializer
        .serialize_element(&Value::Bool(first_element))
        .unwrap();
    serializer
        .serialize_element(&Value::Integer16(second_element))
        .unwrap();
    serializer.end().unwrap();

    let mut expected_bytes = bytes_of(variant_index);

    expected_bytes.append(&mut bytes_of(0));
    expected_bytes.append(&mut bytes_of(second_element as u32));

    assert_eq!(buffer, expected_bytes);
}

#[test]
fn serialize_struct_variant() {
    let mut buffer = Vec::new();

    let variant_index = 3;
    let struct_fields = 2;
    let first_field_value = false;
    let second_field_value = -3i16;

    let mut serializer = Serializer::new(&mut buffer)
        .serialize_struct_variant(
            "MyEnum",
            variant_index,
            "FourthVariant",
            struct_fields,
        )
        .unwrap();

    serializer
        .serialize_field("first_field", &Value::Bool(first_field_value))
        .unwrap();
    serializer
        .serialize_field("second_field", &Value::Integer16(second_field_value))
        .unwrap();
    serializer.end().unwrap();

    let mut expected_bytes = bytes_of(variant_index);

    expected_bytes.append(&mut bytes_of(0));
    expected_bytes.append(&mut bytes_of(second_field_value as u32));

    assert_eq!(buffer, expected_bytes);
}

#[test]
fn serialize_sequence() {
    let mut buffer = Vec::new();

    let length = 3;
    let first_element: i32 = -20;
    let second_element = "hello";
    let third_element: i32 = -45;

    {
        let mut sequence_serializer = Serializer::new(&mut buffer)
            .serialize_seq(Some(length))
            .unwrap();

        sequence_serializer
            .serialize_element(&Value::Integer32(first_element))
            .unwrap();
        sequence_serializer
            .serialize_element(&Value::String(second_element.to_string()))
            .unwrap();
        sequence_serializer
            .serialize_element(&Value::Integer32(third_element))
            .unwrap();
        sequence_serializer.end().unwrap();
    }

    let mut expected_bytes = bytes_of(length as u32);

    expected_bytes.append(&mut bytes_of(first_element as u32));
    expected_bytes.append(&mut bytes_of_str(second_element, 3));
    expected_bytes.append(&mut bytes_of(third_element as u32));

    assert_eq!(buffer, expected_bytes);
}

#[test]
fn serialize_sequence_of_unknown_length() {
    let mut buffer = Vec::new();

    let error = Serializer::new(&mut buffer)
        .serialize_seq(None)
        .err()
        .unwrap();

    assert_eq!(error, SerializationError::SequenceUnknownLength);
    assert_eq!(buffer.len(), 0);
}

#[test]
fn serialize_tuple() {
    let mut buffer = Vec::new();

    let length = 3;
    let first_element: i32 = -20;
    let second_element = "hello";
    let third_element: i32 = -45;

    {
        let mut sequence_serializer = Serializer::new(&mut buffer)
            .serialize_tuple(length)
            .unwrap();

        sequence_serializer
            .serialize_element(&Value::Integer32(first_element))
            .unwrap();
        sequence_serializer
            .serialize_element(&Value::String(second_element.to_string()))
            .unwrap();
        sequence_serializer
            .serialize_element(&Value::Integer32(third_element))
            .unwrap();
        sequence_serializer.end().unwrap();
    }

    let mut expected_bytes = Vec::new();

    expected_bytes.append(&mut bytes_of(first_element as u32));
    expected_bytes.append(&mut bytes_of_str(second_element, 3));
    expected_bytes.append(&mut bytes_of(third_element as u32));

    assert_eq!(buffer, expected_bytes);
}

#[test]
fn serialize_struct() {
    let mut buffer = Vec::new();
    let number: i32 = -20;
    let string = "hello";

    {
        let mut struct_serializer = Serializer::new(&mut buffer)
            .serialize_struct("struct", 2)
            .unwrap();

        struct_serializer
            .serialize_field("number", &Value::Integer32(number))
            .unwrap();
        struct_serializer
            .serialize_field("string", &Value::String(string.to_string()))
            .unwrap();
        struct_serializer.end().unwrap();
    }

    let mut expected_bytes = bytes_of(number as u32);

    expected_bytes.append(&mut bytes_of_str(string, 3));

    assert_eq!(buffer, expected_bytes);
}

#[test]
fn sequence_is_consumed_by_a_failed_element() {
    let mut buffer = Vec::new();

    let mut sequence_serializer = Serializer::new(&mut buffer)
        .serialize_tuple_struct("Pair", 2)
        .unwrap();

    sequence_serializer
        .serialize_field(&Value::Bool(true))
        .unwrap();

    let failure = sequence_serializer
        .serialize_field(&Value::String("\u{fc}".to_string()))
        .unwrap_err();

    assert_eq!(
        failure,
        SerializationError::Failure {
            what: "element 1 of the type tuple struct Pair".to_string(),
            cause: Box::new(SerializationError::StringNotAscii {
                string: "\u{fc}".to_string(),
            }),
        }
    );

    let fatal = sequence_serializer
        .serialize_field(&Value::Bool(false))
        .unwrap_err();

    assert_eq!(
        fatal,
        SerializationError::FatalSequenceState {
            name: "tuple struct Pair".to_string(),
        }
    );
    assert_eq!(
        fatal.to_string(),
        "fatal failure while serializing tuple struct Pair".to_string()
    );

    let end = sequence_serializer.end().err().unwrap();

    assert_eq!(
        end,
        SerializationError::FatalSequenceState {
            name: "tuple struct Pair".to_string(),
        }
    );
    assert_eq!(buffer, bytes_of(1));
}

#[test]
fn struct_is_consumed_by_a_failed_field() {
    let mut buffer = Vec::new();

    let mut struct_serializer = Serializer::new(&mut buffer)
        .serialize_struct_variant("Shape", 1, "Circle", 1)
        .unwrap();

    let failure = struct_serializer
        .serialize_field("radius", &Value::Dictionary)
        .unwrap_err();

    assert_eq!(
        failure,
        SerializationError::Failure {
            what: "struct field Shape::Circle::radius".to_string(),
            cause: Box::new(SerializationError::MapNotSupported),
        }
    );
    assert_eq!(
        failure.to_string(),
        "struct field Shape::Circle::radius: XDR does not support a map type".to_string()
    );

    let fatal = struct_serializer
        .serialize_field("radius", &Value::Unit)
        .unwrap_err();

    assert_eq!(
        fatal,
        SerializationError::FatalStructState {
            name: "Shape::Circle".to_string(),
        }
    );
    assert_eq!(buffer, bytes_of(1));
}

#[test]
fn serialize_sequence_that_is_too_long() {
    if usize::BITS > 32 {
        let mut buffer = Vec::new();
        let length = u32::MAX as usize + 1;

        let error = Serializer::new(&mut buffer)
            .serialize_seq(Some(length))
            .err()
            .unwrap();

        assert_eq!(error, SerializationError::SequenceTooLong { length });
        assert_eq!(buffer.len(), 0);
    }
}

#[test]
fn serialize_sequence_of_the_greatest_length() {
    let mut buffer = Vec::new();

    let sequence_serializer = Serializer::new(&mut buffer)
        .serialize_seq(Some(u32::MAX as usize))
        .unwrap();

    sequence_serializer.end().unwrap();

    assert_eq!(buffer, vec![0xff, 0xff, 0xff, 0xff]);
}
