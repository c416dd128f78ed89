//! Encoding of values.

pub mod encoding;
pub mod errors;
pub mod serializer;

pub use self::encoding::{encode, Encoding};
pub use self::errors::{SerializationError, SpecSerializationError};

use self::encoding::{
    encode_element, encode_elements, encode_field, encode_fields, encode_length, encode_opaque,
    encode_string, lemma_encode_elements_stops, lemma_encode_fields_stops, newtype_struct_what,
    newtype_variant_what, opaque_what, some_what, struct_variant_name, tuple_struct_name,
    tuple_variant_name, value_what,
};
use self::serializer::sequence_serializer::SequenceSerializer;
use self::serializer::struct_serializer::StructSerializer;
use crate::framing::{be_i32, be_i64, be_u32, be_u64};
use crate::text::decimal;
use crate::value::{field_models, lemma_field_models, lemma_models, models, Field, Value};
use vstd::prelude::*;
use vstd::string::StringExecFns;

verus! {

/// Serializer for the XDR format.
///
/// Holds a mutable borrow of the byte buffer it serializes data to. Each
/// of its methods writes one item and hands the serializer back; on an
/// error the serializer is gone and the buffer holds what was written
/// until then.
pub struct Serializer<'w> {
    /// The buffer that receives the bytes.
    pub writer: &'w mut Vec<u8>,
}

impl<'w> Serializer<'w> {
    /// Create a new instance that serializes data into the given buffer.
    pub fn new(writer: &'w mut Vec<u8>) -> (serializer: Self)
        ensures
            serializer.writer@ == old(writer)@,
            *final(serializer.writer) == *final(writer),
    {
        Serializer { writer }
    }

    /// Wraps an error in a failure that names opaque data by its length.
    pub fn serialize_opaque_failure(length: usize, error: SerializationError) -> (wrapped:
        SerializationError)
        ensures
            wrapped@ == (SpecSerializationError::Failure {
                what: opaque_what(length as nat),
                cause: Box::new(error@),
            }),
    {
        let number = decimal(length as u64);
        let what = String::from_str("opaque data of length ").concat(number.as_str());
        SerializationError::Failure { what, cause: Box::new(error) }
    }

    /// The error of a sink that refused a value of a type that is named.
    pub fn io_error(kind_name: &str, value: &str, cause: &str) -> (error: SerializationError)
        ensures
            error@ == (SpecSerializationError::IoError {
                what: value_what(value@, kind_name@),
                cause: cause@,
            }),
    {
        let what = String::from_str("a value ").concat(value).concat(" of type ").concat(
            kind_name,
        );
        SerializationError::IoError { what, cause: String::from_str(cause) }
    }

    /// The error of a sink that refused opaque data of a length.
    pub fn serialize_opaque_io_error(length: usize, cause: &str) -> (error: SerializationError)
        ensures
            error@ == (SpecSerializationError::IoError {
                what: opaque_what(length as nat),
                cause: cause@,
            }),
    {
        let number = decimal(length as u64);
        let what = String::from_str("opaque data of length ").concat(number.as_str());
        SerializationError::IoError { what, cause: String::from_str(cause) }
    }

    /// Whether `result` is what an encoding gives on a buffer that held
    /// `before`: the serializer with the encoding's bytes added, or the
    /// encoding's error.
    pub open spec fn outcome(
        before: Seq<u8>,
        result: Result<Serializer<'w>, SerializationError>,
        encoding: Encoding,
    ) -> bool {
        match encoding.error {
            None => result matches Ok(after) && after.writer@ == before + encoding.bytes,
            Some(error) => result matches Err(found) && found@ == error,
        }
    }
}

/// Serializes the elements of a sequence or tuple in order, then ends it.
#[verifier::loop_isolation(false)]
fn serialize_elements<'w>(items: &Vec<Value>, sequence: SequenceSerializer<'w>) -> (result: Result<
    Serializer<'w>,
    SerializationError,
>)
    requires
        sequence.serializer is Some,
        sequence.current_index == 0,
    ensures
        ({
            let encoding = encode_elements(
                models(items@),
                items@.len(),
                sequence.kind_name.text(),
            );
            &&& Serializer::outcome(old(sequence.serializer->Some_0.writer)@, result, encoding)
            &&& result is Ok ==> *final(result->Ok_0.writer) == *final(
                sequence.serializer->Some_0.writer)
            &&& result is Err ==> final(sequence.serializer->Some_0.writer)@ == old(
                sequence.serializer->Some_0.writer)@ + encoding.bytes
        }),
    decreases items, 0nat,
{
    let ghost end = *final(sequence.serializer->Some_0.writer);
    let mut live = sequence;
    let ghost start = live.serializer->Some_0.writer@;
    let ghost kind_name = live.kind_name.text();
    let ghost elements = models(items@);
    let mut index: usize = 0;
    proof {
        lemma_models(items@);
    }
    while index < items.len()
        invariant
            index <= items.len(),
            elements == models(items@),
            elements.len() == items@.len(),
            forall|i: int| 0 <= i < items@.len() ==> #[trigger] elements[i] == items@[i]@,
            live.kind_name.text() == kind_name,
            live.current_index == index,
            live.serializer is Some,
            encode_elements(elements, index as nat, kind_name).error is None,
            live.serializer->Some_0.writer@ == start + encode_elements(
                elements,
                index as nat,
                kind_name,
            ).bytes,
            *final(live.serializer->Some_0.writer) == end,
        decreases items.len() - index,
    {
        let ghost before = live.serializer->Some_0.writer@;
        match live.common_serialize_element(&items[index]) {
            Ok(()) => {
                proof {
                    assert(live.serializer->Some_0.writer@ =~= start + encode_elements(
                        elements,
                        (index + 1) as nat,
                        kind_name,
                    ).bytes);
                }
            },
            Err(error) => {
                proof {
                    let step = encode_element(elements[index as int], index as nat, kind_name);
                    lemma_encode_elements_stops(
                        elements,
                        (index + 1) as nat,
                        items@.len(),
                        kind_name,
                    );
                    assert(before + step.bytes =~= start + encode_elements(
                        elements,
                        (index + 1) as nat,
                        kind_name,
                    ).bytes);
                }
                return Err(error);
            },
        }
        index = index + 1;
    }
    live.common_end()
}

/// Serializes the fields of a struct in order, then ends it.
#[verifier::loop_isolation(false)]
fn serialize_fields<'w>(fields: &Vec<Field>, serializer: StructSerializer<'w>) -> (result: Result<
    Serializer<'w>,
    SerializationError,
>)
    requires
        serializer.serializer is Some,
    ensures
        ({
            let encoding = encode_fields(
                field_models(fields@),
                fields@.len(),
                serializer.struct_name.text(),
            );
            &&& Serializer::outcome(old(serializer.serializer->Some_0.writer)@, result, encoding)
            &&& result is Ok ==> *final(result->Ok_0.writer) == *final(
                serializer.serializer->Some_0.writer)
            &&& result is Err ==> final(serializer.serializer->Some_0.writer)@ == old(
                serializer.serializer->Some_0.writer)@ + encoding.bytes
        }),
    decreases fields, 0nat,
{
    let ghost end = *final(serializer.serializer->Some_0.writer);
    let mut live = serializer;
    let ghost start = live.serializer->Some_0.writer@;
    let ghost struct_name = live.struct_name.text();
    let ghost models = field_models(fields@);
    let mut index: usize = 0;
    proof {
        lemma_field_models(fields@);
    }
    while index < fields.len()
        invariant
            index <= fields.len(),
            models == field_models(fields@),
            models.len() == fields@.len(),
            forall|i: int| 0 <= i < fields@.len() ==> #[trigger] models[i] == fields@[i]@,
            live.struct_name.text() == struct_name,
            live.serializer is Some,
            encode_fields(models, index as nat, struct_name).error is None,
            live.serializer->Some_0.writer@ == start + encode_fields(
                models,
                index as nat,
                struct_name,
            ).bytes,
            *final(live.serializer->Some_0.writer) == end,
        decreases fields.len() - index,
    {
        let ghost before = live.serializer->Some_0.writer@;
        let field = &fields[index];
        match live.common_serialize_field(field.name, &field.value) {
            Ok(()) => {
                proof {
                    assert(live.serializer->Some_0.writer@ =~= start + encode_fields(
                        models,
                        (index + 1) as nat,
                        struct_name,
                    ).bytes);
                }
            },
            Err(error) => {
                proof {
                    lemma_encode_fields_stops(
                        models,
                        (index + 1) as nat,
                        fields@.len(),
                        struct_name,
                    );
                    assert(before + encode_field(models[index as int], struct_name).bytes
                        =~= start + encode_fields(
                        models,
                        (index + 1) as nat,
                        struct_name,
                    ).bytes);
                }
                return Err(error);
            },
        }
        index = index + 1;
    }
    live.common_end()
}

impl Value {
    /// Serializes the value.
    pub fn serialize<'w>(&self, serializer: Serializer<'w>) -> (result: Result<
        Serializer<'w>,
        SerializationError,
    >)
        ensures
            Serializer::outcome(old(serializer.writer)@, result, encode(self@)),
            result matches Ok(after) ==> *final(after.writer) == *final(serializer.writer),
            result is Err ==> final(serializer.writer)@ == old(serializer.writer)@ + encode(
                self@,
            ).bytes,
        decreases self, 0nat,
    {
        let ghost before = serializer.writer@;
        match self {
            Value::Bool(value) => {
                proof {
                    assert(encode(self@) == Encoding::complete(
                        be_u32(
                            if *value {
                                1
                            } else {
                                0
                            },
                        ),
                    )) by {
                        reveal(encode);
                    }
                }
                serializer.serialize_bool(*value)
            },
            Value::Integer8(value) => {
                proof {
                    assert(encode(self@) == Encoding::complete(be_i32(*value as i32))) by {
                        reveal(encode);
                    }
                }
                serializer.serialize_i8(*value)
            },
            Value::Integer16(value) => {
                proof {
                    assert(encode(self@) == Encoding::complete(be_i32(*value as i32))) by {
                        reveal(encode);
                    }
                }
                serializer.serialize_i16(*value)
            },
            Value::Integer32(value) => {
                proof {
                    assert(encode(self@) == Encoding::complete(be_i32(*value))) by {
                        reveal(encode);
                    }
                }
                serializer.serialize_i32(*value)
            },
            Value::Integer64(value) => {
                proof {
                    assert(encode(self@) == Encoding::complete(be_i64(*value))) by {
                        reveal(encode);
                    }
                }
                serializer.serialize_i64(*value)
            },
            Value::UnsignedInteger8(value) => {
                proof {
                    assert(encode(self@) == Encoding::complete(be_u32(*value as u32))) by {
                        reveal(encode);
                    }
                }
                serializer.serialize_u8(*value)
            },
            Value::UnsignedInteger16(value) => {
                proof {
                    assert(encode(self@) == Encoding::complete(be_u32(*value as u32))) by {
                        reveal(encode);
                    }
                }
                serializer.serialize_u16(*value)
            },
            Value::UnsignedInteger32(value) => {
                proof {
                    assert(encode(self@) == Encoding::complete(be_u32(*value))) by {
                        reveal(encode);
                    }
                }
                serializer.serialize_u32(*value)
            },
            Value::UnsignedInteger64(value) => {
                proof {
                    assert(encode(self@) == Encoding::complete(be_u64(*value))) by {
                        reveal(encode);
                    }
                }
                serializer.serialize_u64(*value)
            },
            Value::Float(bits) => {
                proof {
                    assert(encode(self@) == Encoding::complete(be_u32(*bits))) by {
                        reveal(encode);
                    }
                }
                serializer.serialize_f32(*bits)
            },
            Value::Double(bits) => {
                proof {
                    assert(encode(self@) == Encoding::complete(be_u64(*bits))) by {
                        reveal(encode);
                    }
                }
                serializer.serialize_f64(*bits)
            },
            Value::Char(value) => {
                proof {
                    assert(encode(self@) == Encoding::complete(be_u32(*value as u32))) by {
                        reveal(encode);
                    }
                }
                serializer.serialize_char(*value)
            },
            Value::String(value) => {
                proof {
                    assert(encode(self@) == encode_string(value@)) by {
                        reveal(encode);
                    }
                }
                serializer.serialize_str(value.as_str())
            },
            Value::Bytes(value) => {
                proof {
                    assert(encode(self@) == encode_opaque(value@)) by {
                        reveal(encode);
                    }
                }
                serializer.serialize_bytes(value.as_slice())
            },
            Value::Optional(None) => {
                proof {
                    assert(encode(self@) == Encoding::complete(be_u32(0))) by {
                        reveal(encode);
                    }
                }
                serializer.serialize_none()
            },
            Value::Optional(Some(value)) => {
                proof {
                    assert(encode(self@) == Encoding::complete(be_u32(1)).followed_by(
                        encode(value@).within(some_what()),
                    )) by {
                        reveal(encode);
                    }
                }
                let result = serializer.serialize_some(value);
                proof {
                    assert(before + be_u32(1) + encode(value@).bytes =~= before + (be_u32(1)
                        + encode(value@).bytes));
                }
                result
            },
            Value::Unit => {
                proof {
                    assert(encode(self@) == Encoding::complete(Seq::empty())) by {
                        reveal(encode);
                    }
                    assert(before + Seq::<u8>::empty() =~= before);
                }
                serializer.serialize_unit()
            },
            Value::UnitStruct { name } => {
                proof {
                    assert(encode(self@) == Encoding::complete(Seq::empty())) by {
                        reveal(encode);
                    }
                    assert(before + Seq::<u8>::empty() =~= before);
                }
                serializer.serialize_unit_struct(name)
            },
            Value::UnitVariant { name, variant_index, variant } => {
                proof {
                    assert(encode(self@) == Encoding::complete(be_u32(*variant_index))) by {
                        reveal(encode);
                    }
                }
                serializer.serialize_unit_variant(name, *variant_index, variant)
            },
            Value::NewtypeStruct { name, value } => {
                proof {
                    assert(encode(self@) == encode(value@).within(newtype_struct_what(name@))) by {
                        reveal(encode);
                    }
                }
                serializer.serialize_newtype_struct(name, value)
            },
            Value::NewtypeVariant { name, variant_index, variant, value } => {
                proof {
                    assert(encode(self@) == Encoding::complete(be_u32(*variant_index)).followed_by(
                        encode(value@).within(newtype_variant_what(name@, variant@)),
                    )) by {
                        reveal(encode);
                    }
                }
                let result = serializer.serialize_newtype_variant(
                    name,
                    *variant_index,
                    variant,
                    value,
                );
                proof {
                    assert(before + be_u32(*variant_index) + encode(value@).bytes =~= before + (
                    be_u32(*variant_index) + encode(value@).bytes));
                }
                result
            },
            Value::Sequence(items) => {
                let ghost elements = encode_elements(models(items@), items@.len(), "sequence"@);
                proof {
                    assert(encode(self@) == encode_length(items@.len()).followed_by(elements)) by {
                        reveal(encode);
                        lemma_models(items@);
                    }
                }
                match serializer.serialize_seq(Some(items.len())) {
                    Ok(sequence) => {
                        let result = serialize_elements(items, sequence);
                        proof {
                            let prefix = encode_length(items@.len()).bytes;
                            assert(before + prefix + elements.bytes =~= before + (prefix
                                + elements.bytes));
                        }
                        result
                    },
                    Err(error) => {
                        proof {
                            assert(before + Seq::<u8>::empty() =~= before);
                        }
                        Err(error)
                    },
                }
            },
            Value::Tuple(items) => {
                proof {
                    assert(encode(self@) == encode_elements(
                        models(items@),
                        items@.len(),
                        "tuple"@,
                    )) by {
                        reveal(encode);
                        lemma_models(items@);
                    }
                }
                match serializer.serialize_tuple(items.len()) {
                    Ok(sequence) => serialize_elements(items, sequence),
                    Err(error) => Err(error),
                }
            },
            Value::TupleStruct { name, fields } => {
                proof {
                    assert(encode(self@) == encode_elements(
                        models(fields@),
                        fields@.len(),
                        tuple_struct_name(name@),
                    )) by {
                        reveal(encode);
                        lemma_models(fields@);
                    }
                }
                match serializer.serialize_tuple_struct(name, fields.len()) {
                    Ok(sequence) => serialize_elements(fields, sequence),
                    Err(error) => Err(error),
                }
            },
            Value::TupleVariant { name, variant_index, variant, fields } => {
                let ghost elements = encode_elements(
                    models(fields@),
                    fields@.len(),
                    tuple_variant_name(name@, variant@),
                );
                proof {
                    assert(encode(self@) == Encoding::complete(be_u32(*variant_index)).followed_by(
                        elements,
                    )) by {
                        reveal(encode);
                        lemma_models(fields@);
                    }
                }
                match serializer.serialize_tuple_variant(
                    name,
                    *variant_index,
                    variant,
                    fields.len(),
                ) {
                    Ok(sequence) => {
                        let result = serialize_elements(fields, sequence);
                        proof {
                            let prefix = be_u32(*variant_index);
                            assert(before + prefix + elements.bytes =~= before + (prefix
                                + elements.bytes));
                        }
                        result
                    },
                    Err(error) => Err(error),
                }
            },
            Value::Dictionary => {
                proof {
                    assert(encode(self@) == Encoding::failed(
                        SpecSerializationError::MapNotSupported,
                    )) by {
                        reveal(encode);
                    }
                    assert(before + Seq::<u8>::empty() =~= before);
                }
                serializer.serialize_map(None)
            },
            Value::Struct { name, fields } => {
                proof {
                    assert(encode(self@) == encode_fields(
                        field_models(fields@),
                        fields@.len(),
                        name@,
                    )) by {
                        reveal(encode);
                        lemma_field_models(fields@);
                    }
                }
                match serializer.serialize_struct(name, fields.len()) {
                    Ok(inner) => serialize_fields(fields, inner),
                    Err(error) => Err(error),
                }
            },
            Value::StructVariant { name, variant_index, variant, fields } => {
                let ghost inner_fields = encode_fields(
                    field_models(fields@),
                    fields@.len(),
                    struct_variant_name(name@, variant@),
                );
                proof {
                    assert(encode(self@) == Encoding::complete(be_u32(*variant_index)).followed_by(
                        inner_fields,
                    )) by {
                        reveal(encode);
                        lemma_field_models(fields@);
                    }
                }
                match serializer.serialize_struct_variant(
                    name,
                    *variant_index,
                    variant,
                    fields.len(),
                ) {
                    Ok(inner) => {
                        let result = serialize_fields(fields, inner);
                        proof {
                            let prefix = be_u32(*variant_index);
                            assert(before + prefix + inner_fields.bytes =~= before + (prefix
                                + inner_fields.bytes));
                        }
                        result
                    },
                    Err(error) => Err(error),
                }
            },
        }
    }
}

/// Serialize data into a vector of bytes.
pub fn to_bytes(value: &Value) -> (result: Result<Vec<u8>, SerializationError>)
    ensures
        match encode(value@).error {
            None => result is Ok && result->Ok_0@ == encode(value@).bytes,
            Some(error) => result is Err && result->Err_0@ == error,
        },
{
    let mut bytes = Vec::new();
    match value.serialize(Serializer::new(&mut bytes)) {
        Ok(_) => Ok(bytes),
        Err(error) => Err(error),
    }
}

/// Serialize data into a buffer of bytes, after what it holds. Where the
/// value cannot be serialized, the buffer holds what was written until the
/// error.
pub fn to_writer(writer: &mut Vec<u8>, value: &Value) -> (result: Result<(), SerializationError>)
    ensures
        final(writer)@ == old(writer)@ + encode(value@).bytes,
        match encode(value@).error {
            None => result is Ok,
            Some(error) => result is Err && result->Err_0@ == error,
        },
{
    match value.serialize(Serializer::new(writer)) {
        Ok(_) => Ok(()),
        Err(error) => Err(error),
    }
}

} // verus!
