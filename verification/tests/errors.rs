use serde_xdr::framing::padding_size;
use serde_xdr::text::{decimal, hexadecimal, signed_decimal};
use serde_xdr::{
    from_bytes, to_bytes, DeserializationError, Deserializer, FieldKind, Kind, SerializationError,
    Value,
};

#[test]
fn narrow_signed_integer_out_of_range() {
    let bytes: Vec<u8> = vec![0x00, 0x00, 0x00, 0xc8];
    let mut deserializer = Deserializer::new(&bytes);

    let error = deserializer.deserialize_i8().unwrap_err();

    assert_eq!(
        error,
        DeserializationError::InvalidSignedInteger { bits: 8, value: 200 }
    );
    assert_eq!(deserializer.position, 4);
    assert_eq!(
        error.to_string(),
        "deserialized invalid 8-bit signed integer: 200".to_string()
    );
}

#[test]
fn narrow_signed_integer_at_the_edges_of_its_range() {
    let lowest: Vec<u8> = vec![0xff, 0xff, 0xff, 0x80];
    assert_eq!(Deserializer::new(&lowest).deserialize_i8().unwrap(), -128);

    let highest: Vec<u8> = vec![0x00, 0x00, 0x00, 0x7f];
    assert_eq!(Deserializer::new(&highest).deserialize_i8().unwrap(), 127);

    let below: Vec<u8> = vec![0xff, 0xff, 0xff, 0x7f];
    assert_eq!(
        Deserializer::new(&below).deserialize_i8().unwrap_err(),
        DeserializationError::InvalidSignedInteger { bits: 8, value: -129 }
    );

    let above: Vec<u8> = vec![0x00, 0x00, 0x80, 0x00];
    assert_eq!(
        Deserializer::new(&above).deserialize_i16().unwrap_err(),
        DeserializationError::InvalidSignedInteger { bits: 16, value: 32768 }
    );
}

#[test]
fn narrow_unsigned_integer_out_of_range() {
    let bytes: Vec<u8> = vec![0x00, 0x00, 0x01, 0x00];
    let mut deserializer = Deserializer::new(&bytes);

    let error = deserializer.deserialize_u8().unwrap_err();

    assert_eq!(
        error,
        DeserializationError::InvalidUnsignedInteger { bits: 8, value: 256 }
    );
    assert_eq!(deserializer.position, 4);
    assert_eq!(
        error.to_string(),
        "deserialized invalid 8-bit unsigned integer: 256".to_string()
    );

    let wide: Vec<u8> = vec![0x00, 0x01, 0x00, 0x00];
    assert_eq!(
        Deserializer::new(&wide).deserialize_u16().unwrap_err(),
        DeserializationError::InvalidUnsignedInteger { bits: 16, value: 65536 }
    );
}

#[test]
fn integer_ranges_by_width() {
    let bytes: Vec<u8> = vec![0x00, 0x00, 0x00, 0x04];

    assert_eq!(Deserializer::new(&bytes).deserialize_integer(4).unwrap(), 4);
    assert_eq!(
        Deserializer::new(&bytes).deserialize_integer(3).unwrap_err(),
        DeserializationError::InvalidSignedInteger { bits: 3, value: 4 }
    );
    assert_eq!(
        Deserializer::new(&bytes).deserialize_unsigned_integer(3).unwrap(),
        4
    );
    assert_eq!(
        Deserializer::new(&bytes).deserialize_unsigned_integer(2).unwrap_err(),
        DeserializationError::InvalidUnsignedInteger { bits: 2, value: 4 }
    );
}

#[test]
fn invalid_bool() {
    let bytes: Vec<u8> = vec![0x00, 0x00, 0x00, 0x02];
    let mut deserializer = Deserializer::new(&bytes);

    let error = deserializer.deserialize_bool().unwrap_err();

    assert_eq!(error, DeserializationError::InvalidBool { raw: 2 });
    assert_eq!(deserializer.position, 4);
    assert_eq!(
        error.to_string(),
        "deserialized an invalid bool: 2".to_string()
    );
}

#[test]
fn invalid_option() {
    let bytes: Vec<u8> = vec![0x00, 0x00, 0x00, 0x02, 0x00, 0x00, 0x00, 0x00];
    let mut deserializer = Deserializer::new(&bytes);

    let error = deserializer.deserialize_option(&Kind::Bool).unwrap_err();

    assert_eq!(error, DeserializationError::InvalidOption);
    assert_eq!(deserializer.position, 4);
    assert_eq!(
        error.to_string(),
        "deserialized an invalid option".to_string()
    );
}

#[test]
fn invalid_char() {
    let surrogate: Vec<u8> = vec![0x00, 0x00, 0xd8, 0x00];
    let mut deserializer = Deserializer::new(&surrogate);

    let error = deserializer.deserialize_char().unwrap_err();

    assert_eq!(error, DeserializationError::InvalidChar { raw: 0xd800 });
    assert_eq!(deserializer.position, 4);
    assert_eq!(
        error.to_string(),
        "deserialized an invalid char: 0xD800".to_string()
    );

    let too_large: Vec<u8> = vec![0x00, 0x11, 0x00, 0x00];
    assert_eq!(
        Deserializer::new(&too_large).deserialize_char().unwrap_err(),
        DeserializationError::InvalidChar { raw: 0x11_0000 }
    );
}

#[test]
fn invalid_utf8() {
    let bytes: Vec<u8> = vec![0x00, 0x00, 0x00, 0x02, 0xc3, 0x28, 0x00, 0x00];
    let mut deserializer = Deserializer::new(&bytes);

    let error = deserializer.deserialize_str().unwrap_err();

    assert_eq!(error, DeserializationError::InvalidUtf8);
    assert_eq!(deserializer.position, 8);
}

#[test]
fn strings_that_are_not_ascii_are_deserialized() {
    let bytes: Vec<u8> = vec![0x00, 0x00, 0x00, 0x03, b'-', 0xc3, 0xa9, 0x00];
    let mut deserializer = Deserializer::new(&bytes);

    assert_eq!(deserializer.deserialize_string().unwrap(), "-\u{e9}".to_string());
    assert_eq!(deserializer.position, 8);
}

#[test]
fn error_chain() {
    let kind = Kind::Struct {
        name: "Record",
        fields: vec![
            FieldKind { name: "id", kind: Kind::UnsignedInteger32 },
            FieldKind { name: "name", kind: Kind::String },
            FieldKind { name: "active", kind: Kind::Bool },
        ],
    };
    let bytes: Vec<u8> = vec![
        0x00, 0x00, 0x00, 0x07, 0x00, 0x00, 0x00, 0x02, b'o', b'k', 0x00, 0x00,
        0x00, 0x00, 0x00, 0x02,
    ];

    let error = from_bytes(&bytes, &kind).unwrap_err();

    assert_eq!(
        error,
        DeserializationError::Failure {
            what: "struct field Record::active".to_string(),
            cause: Box::new(DeserializationError::InvalidBool { raw: 2 }),
        }
    );

    let display = error.to_string();

    assert_eq!(
        display,
        "struct field Record::active: deserialized an invalid bool: 2".to_string()
    );
    assert!(display.contains("struct field Record::active"));
    assert!(display.contains("invalid bool: 2"));
}

#[test]
fn nested_error_chain() {
    let kind = Kind::NewtypeStruct {
        name: "Wrapper",
        kind: Box::new(Kind::Optional(Box::new(Kind::Tuple(vec![
            Kind::Bool,
            Kind::Integer8,
        ])))),
    };
    let bytes: Vec<u8> = vec![
        0x00, 0x00, 0x00, 0x01, 0x00, 0x00, 0x00, 0x01, 0x00, 0x00, 0x01, 0x00,
    ];
    let mut deserializer = Deserializer::new(&bytes);

    let error = Value::deserialize(&kind, &mut deserializer).unwrap_err();

    assert_eq!(
        error.to_string(),
        "struct Wrapper: option: element 1 of type tuple: \
         deserialized invalid 8-bit signed integer: 256"
            .to_string()
    );
    assert_eq!(deserializer.position, 12);
}

#[test]
fn end_of_input() {
    let bytes: Vec<u8> = vec![0x00, 0x00, 0x00];
    let mut deserializer = Deserializer::new(&bytes);

    let error = deserializer.deserialize_bool().unwrap_err();

    assert_eq!(
        error,
        DeserializationError::IoError {
            what: "bool".to_string(),
            cause: "failed to fill whole buffer".to_string(),
        }
    );
    assert_eq!(deserializer.position, 0);
    assert_eq!(
        error.to_string(),
        "IO error while deserializing a value of type bool: failed to fill whole buffer"
            .to_string()
    );
}

#[test]
fn end_of_input_inside_opaque_data() {
    let bytes: Vec<u8> = vec![0x00, 0x00, 0x00, 0x05, 0x01, 0x02, 0x03, 0x04, 0x05, 0x00];
    let mut deserializer = Deserializer::new(&bytes);

    let error = deserializer.deserialize_bytes().unwrap_err();

    assert_eq!(
        error,
        DeserializationError::end_of_input("opaque")
    );
    assert_eq!(deserializer.position, 4);
}

#[test]
fn end_of_input_by_kind() {
    let empty: Vec<u8> = vec![];

    assert_eq!(
        Deserializer::new(&empty).deserialize_i16().unwrap_err(),
        DeserializationError::end_of_input("signed 16-bit integer")
    );
    assert_eq!(
        Deserializer::new(&empty).deserialize_u32().unwrap_err(),
        DeserializationError::end_of_input("unsigned 32-bit integer")
    );
    assert_eq!(
        Deserializer::new(&empty).deserialize_i64().unwrap_err(),
        DeserializationError::end_of_input("signed 64-bit integer")
    );
    assert_eq!(
        Deserializer::new(&empty).deserialize_u64().unwrap_err(),
        DeserializationError::end_of_input("unsigned 64-bit integer")
    );
    assert_eq!(
        Deserializer::new(&empty).deserialize_f32().unwrap_err(),
        DeserializationError::end_of_input("float")
    );
    assert_eq!(
        Deserializer::new(&empty).deserialize_f64().unwrap_err(),
        DeserializationError::end_of_input("double")
    );
    assert_eq!(
        Deserializer::new(&empty).deserialize_char().unwrap_err(),
        DeserializationError::end_of_input("char")
    );
    assert_eq!(
        Deserializer::new(&empty).deserialize_string().unwrap_err(),
        DeserializationError::end_of_input("string")
    );
    assert_eq!(
        Deserializer::new(&empty).deserialize_seq(&Kind::Bool).unwrap_err(),
        DeserializationError::end_of_input("sequence")
    );
    assert_eq!(
        Deserializer::new(&empty).deserialize_option(&Kind::Bool).unwrap_err(),
        DeserializationError::end_of_input("option")
    );
    assert_eq!(
        Deserializer::new(&empty).deserialize_enum("Color", &vec![]).unwrap_err(),
        DeserializationError::end_of_input("enum Color")
    );
}

#[test]
fn kinds_that_are_not_supported() {
    let bytes: Vec<u8> = vec![0x00, 0x00, 0x00, 0x00];

    assert_eq!(
        from_bytes(&bytes, &Kind::Dictionary).unwrap_err(),
        DeserializationError::MapNotSupported
    );
    assert_eq!(
        from_bytes(&bytes, &Kind::Any).unwrap_err(),
        DeserializationError::UnknownType
    );
    assert_eq!(
        from_bytes(&bytes, &Kind::IgnoredAny).unwrap_err(),
        DeserializationError::UnknownType
    );
    assert_eq!(
        from_bytes(&bytes, &Kind::Identifier).unwrap_err(),
        DeserializationError::IdentifierNotSupported
    );
    assert_eq!(
        to_bytes(&Value::Dictionary).unwrap_err(),
        SerializationError::MapNotSupported
    );
}

#[test]
fn messages_of_deserialization_errors() {
    assert_eq!(
        DeserializationError::custom("out of luck").to_string(),
        "custom error message: out of luck".to_string()
    );
    assert_eq!(
        DeserializationError::IdentifierNotSupported.to_string(),
        "deserialization of an identifier is not supported".to_string()
    );
    assert_eq!(
        DeserializationError::InvalidSignedInteger { bits: 16, value: -40000 }.to_string(),
        "deserialized invalid 16-bit signed integer: -40000".to_string()
    );
    assert_eq!(
        DeserializationError::InvalidUtf8.to_string(),
        "deserialized an invalid UTF-8 string".to_string()
    );
    assert_eq!(
        DeserializationError::MapNotSupported.to_string(),
        "XDR does not support a map type".to_string()
    );
    assert_eq!(
        DeserializationError::TupleTooLong { length: 4294967296 }.to_string(),
        "tuple has too many elements: 4294967296".to_string()
    );
    assert_eq!(
        DeserializationError::UnknownType.to_string(),
        "can't deserialize unknown type".to_string()
    );
    assert_eq!(
        DeserializationError::InvalidEnumVariant { variant: 1, variants: vec![] }.to_string(),
        "deserialized an invalid enum variant: variant index is 1, valid variants are []"
            .to_string()
    );
    assert_eq!(
        DeserializationError::failure(
            "enum variant Color::Red",
            DeserializationError::io_error("bool", "broken pipe"),
        )
        .to_string(),
        "enum variant Color::Red: IO error while deserializing a value of type bool: broken pipe"
            .to_string()
    );
}

#[test]
fn messages_of_serialization_errors() {
    assert_eq!(
        SerializationError::custom("out of luck").to_string(),
        "custom error message: out of luck".to_string()
    );
    assert_eq!(
        SerializationError::io_error("a value 5 of type integer", "disk full").to_string(),
        "IO error while serializing a value 5 of type integer: disk full".to_string()
    );
    assert_eq!(
        SerializationError::MapNotSupported.to_string(),
        "XDR does not support a map type".to_string()
    );
    assert_eq!(
        SerializationError::OpaqueTooLong { length: 4294967296 }.to_string(),
        "opaque data is too long: 4294967296 bytes".to_string()
    );
    assert_eq!(
        SerializationError::FatalStructState { name: "Point".to_string() }.to_string(),
        "fatal failure while serializing struct: Point".to_string()
    );
    assert_eq!(
        SerializationError::SequenceTooLong { length: 4294967296 }.to_string(),
        "sequence is too long to be serialized: 4294967296".to_string()
    );
    assert_eq!(
        SerializationError::SequenceUnknownLength.to_string(),
        "can't serialize sequence with unknown length".to_string()
    );
    assert_eq!(
        SerializationError::StringTooLong { string: "long".to_string() }.to_string(),
        "string is too long: long".to_string()
    );
    assert_eq!(
        SerializationError::failure(
            "struct Wrapper",
            SerializationError::failure("element 0 of the type tuple", SerializationError::MapNotSupported),
        )
        .to_string(),
        "struct Wrapper: element 0 of the type tuple: XDR does not support a map type"
            .to_string()
    );
}

#[test]
fn serialize_failure_describes_the_value() {
    assert_eq!(
        serde_xdr::Serializer::serialize_failure(
            "bool",
            "true",
            SerializationError::io_error("a value 1 of type unsigned integer", "disk full"),
        ),
        SerializationError::Failure {
            what: "a value true of type bool".to_string(),
            cause: Box::new(SerializationError::IoError {
                what: "a value 1 of type unsigned integer".to_string(),
                cause: "disk full".to_string(),
            }),
        }
    );
}

#[test]
fn numbers_as_text() {
    assert_eq!(decimal(0), "0".to_string());
    assert_eq!(decimal(9), "9".to_string());
    assert_eq!(decimal(10), "10".to_string());
    assert_eq!(decimal(4294967295), "4294967295".to_string());
    assert_eq!(decimal(u64::MAX), "18446744073709551615".to_string());
    assert_eq!(signed_decimal(0), "0".to_string());
    assert_eq!(signed_decimal(-1), "-1".to_string());
    assert_eq!(signed_decimal(i64::MIN), "-9223372036854775808".to_string());
    assert_eq!(signed_decimal(i64::MAX), "9223372036854775807".to_string());
    assert_eq!(hexadecimal(0), "0".to_string());
    assert_eq!(hexadecimal(255), "FF".to_string());
    assert_eq!(hexadecimal(0xd800), "D800".to_string());
    assert_eq!(hexadecimal(0x1234_abcd), "1234ABCD".to_string());
}

#[test]
fn padding_sizes() {
    assert_eq!(padding_size(0), 0);
    assert_eq!(padding_size(1), 3);
    assert_eq!(padding_size(2), 2);
    assert_eq!(padding_size(3), 1);
    assert_eq!(padding_size(4), 0);
    assert_eq!(padding_size(5), 3);
    assert_eq!(padding_size(usize::MAX), (4 - usize::MAX % 4) % 4);
}
