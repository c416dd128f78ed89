//! The deserializer's operations, one for each kind of value.

pub mod enum_deserializer;
pub mod sequence_deserializer;
pub mod struct_deserializer;

use self::enum_deserializer::EnumDeserializer;
use self::sequence_deserializer::SequenceDeserializer;
use self::struct_deserializer::StructDeserializer;
use crate::de::decoding::{
    decode, decode_bool, decode_char, decode_elements, decode_enum, decode_fields,
    decode_integer, decode_newtype_struct, decode_opaque, decode_option, decode_repeated,
    decode_seq, decode_string, decode_tuple, decode_u32, decode_u64, decode_unsigned_integer,
    decode_variant, lemma_decode_elements_step, lemma_decode_elements_stops,
    lemma_decode_fields_step, lemma_decode_fields_stops, lemma_decode_repeated_step,
    lemma_decode_repeated_stops, tuple_struct_name, Decoded,
};
use crate::de::errors::{names_of, DeserializationError, SpecDeserializationError};
use crate::de::{char_from_u32, string_from_utf8, Deserializer};
use crate::framing::i64_of_unsigned;
use crate::kind::{variant_names, FieldKind, Kind, VariantKind, VariantShape};
use crate::value::{field_models, models, Field, SpecField, SpecValue, Value};
use vstd::arithmetic::power2::lemma2_to64;
use vstd::pervasive::unreached;
use vstd::prelude::*;
use vstd::string::StringExecFns;

verus! {

/// Collects the elements of a sequence, all of one kind, until none is left.
#[verifier::loop_isolation(false)]
fn visit_repeated<'a, 'r, 's>(sequence: SequenceDeserializer<'a, 'r, 's>, element: &Kind) -> (result:
    Result<Vec<Value>, DeserializationError>)
    requires
        sequence.current_index == 0,
    ensures
        Deserializer::read_values(
            *old(sequence.deserializer),
            *final(sequence.deserializer),
            result,
            decode_repeated(
                old(sequence.deserializer).reader@,
                old(sequence.deserializer).position as int,
                *element,
                sequence.length as nat,
                sequence.kind_name@,
            ),
        ),
    decreases element, 2nat,
{
    let ghost end = *final(sequence.deserializer);
    let ghost bytes = sequence.deserializer.reader@;
    let ghost start = sequence.deserializer.position as int;
    let ghost kind_name = sequence.kind_name@;
    let ghost length = sequence.length;
    let ghost reader = sequence.deserializer.reader;
    let mut live = sequence;
    let mut values: Vec<Value> = Vec::new();
    proof {
        assert(models(values@) =~= Seq::<SpecValue>::empty());
    }
    while live.current_index < live.length
        invariant
            live.length == length,
            live.kind_name@ == kind_name,
            live.current_index <= live.length,
            live.current_index == values@.len(),
            live.deserializer.reader == reader,
            *final(live.deserializer) == end,
            decode_repeated(bytes, start, *element, values@.len(), kind_name) == Decoded::ok(
                live.deserializer.position as int,
                models(values@),
            ),
        decreases live.length - live.current_index,
    {
        let ghost before = values@;
        proof {
            lemma_decode_repeated_step(bytes, start, *element, before.len() + 1, kind_name);
        }
        match live.next_element_seed(element) {
            Ok(Some(value)) => {
                values.push(value);
                proof {
                    assert(values@.drop_last() =~= before);
                }
            },
            Ok(None) => {
                unreached()
            },
            Err(error) => {
                proof {
                    lemma_decode_repeated_stops(
                        bytes,
                        start,
                        *element,
                        before.len() + 1,
                        length as nat,
                        kind_name,
                    );
                }
                return Err(error);
            },
        }
    }
    Ok(values)
}

/// Collects the elements of a tuple, each of its own kind.
#[verifier::loop_isolation(false)]
fn visit_tuple<'a, 'r, 's>(sequence: SequenceDeserializer<'a, 'r, 's>, elements: &Vec<Kind>) -> (result:
    Result<Vec<Value>, DeserializationError>)
    requires
        sequence.current_index == 0,
        sequence.length == elements@.len(),
    ensures
        Deserializer::read_values(
            *old(sequence.deserializer),
            *final(sequence.deserializer),
            result,
            decode_elements(
                old(sequence.deserializer).reader@,
                old(sequence.deserializer).position as int,
                *elements,
                elements@.len(),
                sequence.kind_name@,
            ),
        ),
    decreases elements, 0nat,
{
    let ghost end = *final(sequence.deserializer);
    let ghost bytes = sequence.deserializer.reader@;
    let ghost start = sequence.deserializer.position as int;
    let ghost kind_name = sequence.kind_name@;
    let ghost reader = sequence.deserializer.reader;
    let mut live = sequence;
    let mut values: Vec<Value> = Vec::new();
    let mut index: usize = 0;
    proof {
        assert(models(values@) =~= Seq::<SpecValue>::empty());
    }
    while index < elements.len()
        invariant
            live.length == elements@.len(),
            live.kind_name@ == kind_name,
            index <= elements@.len(),
            live.current_index == index,
            index == values@.len(),
            live.deserializer.reader == reader,
            *final(live.deserializer) == end,
            decode_elements(bytes, start, *elements, index as nat, kind_name) == Decoded::ok(
                live.deserializer.position as int,
                models(values@),
            ),
        decreases elements.len() - index,
    {
        let ghost before = values@;
        proof {
            lemma_decode_elements_step(bytes, start, *elements, (index + 1) as nat, kind_name);
        }
        match live.next_element_seed(&elements[index]) {
            Ok(Some(value)) => {
                values.push(value);
                proof {
                    assert(values@.drop_last() =~= before);
                }
            },
            Ok(None) => {
                unreached()
            },
            Err(error) => {
                proof {
                    lemma_decode_elements_stops(
                        bytes,
                        start,
                        *elements,
                        (index + 1) as nat,
                        elements@.len(),
                        kind_name,
                    );
                }
                return Err(error);
            },
        }
        index = index + 1;
    }
    Ok(values)
}

/// Collects the fields of a struct, in order.
#[verifier::loop_isolation(false)]
fn visit_struct<'a, 'r>(access: StructDeserializer<'a, 'r>, fields: &'a Vec<FieldKind>) -> (result:
    Result<Vec<Field>, DeserializationError>)
    requires
        access.current_field == 0,
        access.fields == fields,
    ensures
        Deserializer::read_fields(
            *old(access.deserializer),
            *final(access.deserializer),
            result,
            decode_fields(
                old(access.deserializer).reader@,
                old(access.deserializer).position as int,
                *fields,
                fields@.len(),
                access.name@,
            ),
        ),
    decreases fields, 0nat,
{
    let ghost end = *final(access.deserializer);
    let ghost bytes = access.deserializer.reader@;
    let ghost start = access.deserializer.position as int;
    let ghost struct_name = access.name@;
    let ghost reader = access.deserializer.reader;
    let mut live = access;
    let mut values: Vec<Field> = Vec::new();
    let mut index: usize = 0;
    proof {
        assert(field_models(values@) =~= Seq::<SpecField>::empty());
    }
    while index < fields.len()
        invariant
            live.fields == fields,
            live.name@ == struct_name,
            index <= fields@.len(),
            live.current_field == index,
            index == values@.len(),
            live.deserializer.reader == reader,
            *final(live.deserializer) == end,
            decode_fields(bytes, start, *fields, index as nat, struct_name) == Decoded::ok(
                live.deserializer.position as int,
                field_models(values@),
            ),
        decreases fields.len() - index,
    {
        let ghost before = values@;
        proof {
            lemma_decode_fields_step(bytes, start, *fields, (index + 1) as nat, struct_name);
        }
        match live.next_element_seed(&fields[index].kind) {
            Ok(Some(value)) => {
                let ghost model = value@;
                values.push(Field { name: fields[index].name, value });
                proof {
                    assert(values@.drop_last() =~= before);
                    assert(values@.last().model() == (SpecField {
                        name: fields@[index as int].name@,
                        value: model,
                    }));
                }
            },
            Ok(None) => {
                unreached()
            },
            Err(error) => {
                proof {
                    lemma_decode_fields_stops(
                        bytes,
                        start,
                        *fields,
                        (index + 1) as nat,
                        fields@.len(),
                        struct_name,
                    );
                }
                return Err(error);
            },
        }
        index = index + 1;
    }
    Ok(values)
}

/// Builds the value of the selected variant of a union from what the
/// variant holds.
fn visit_enum<'a, 'r>(access: EnumDeserializer<'a, 'r>, variant: &VariantKind) -> (result: Result<
    Value,
    DeserializationError,
>)
    requires
        access.variant_name@ == variant.name@,
    ensures
        Deserializer::read_view(
            *old(access.deserializer),
            *final(access.deserializer),
            result,
            decode_variant(
                old(access.deserializer).reader@,
                old(access.deserializer).position as int,
                access.enum_name@,
                access.variant,
                *variant,
            ),
        ),
    decreases variant, 0nat,
{
    proof {
        reveal(decode);
    }
    let name = access.enum_name;
    let (variant_index, content) = access.variant_seed();
    match &variant.shape {
        VariantShape::Unit => match content.unit_variant() {
            Ok(()) => Ok(Value::UnitVariant { name, variant_index, variant: variant.name }),
            Err(error) => Err(error),
        },
        VariantShape::Newtype(kind) => match content.newtype_variant_seed(kind) {
            Ok(value) => Ok(
                Value::NewtypeVariant {
                    name,
                    variant_index,
                    variant: variant.name,
                    value: Box::new(value),
                },
            ),
            Err(error) => Err(error),
        },
        VariantShape::Tuple(kinds) => match content.tuple_variant(kinds) {
            Ok(fields) => Ok(
                Value::TupleVariant { name, variant_index, variant: variant.name, fields },
            ),
            Err(error) => Err(error),
        },
        VariantShape::Struct(fields) => match content.struct_variant(fields) {
            Ok(fields) => Ok(
                Value::StructVariant { name, variant_index, variant: variant.name, fields },
            ),
            Err(error) => Err(error),
        },
    }
}

/// The names of the variants of a union, in order.
fn names_of_variants(variants: &Vec<VariantKind>) -> (names: Vec<&'static str>)
    ensures
        names_of(names@) == variant_names(variants@),
{
    let mut names: Vec<&'static str> = Vec::new();
    let mut index: usize = 0;
    while index < variants.len()
        invariant
            index <= variants.len(),
            names@.len() == index,
            forall|i: int| 0 <= i < index ==> names@[i]@ == variants@[i].name@,
        decreases variants.len() - index,
    {
        names.push(variants[index].name);
        index = index + 1;
    }
    proof {
        assert(names_of(names@) =~= variant_names(variants@));
    }
    names
}

impl<'r> Deserializer<'r> {
    /// Refuses a value whose kind the input would have to tell: the format
    /// does not describe itself.
    pub fn deserialize_any(&mut self) -> (result: Result<Value, DeserializationError>)
        ensures
            result is Err,
            result->Err_0@ == SpecDeserializationError::UnknownType,
            *final(self) == *old(self),
    {
        Err(DeserializationError::UnknownType)
    }

    /// Reads a boolean: a 32-bit zero or one.
    pub fn deserialize_bool(&mut self) -> (result: Result<bool, DeserializationError>)
        ensures
            Deserializer::read(
                *old(self),
                *final(self),
                result,
                decode_bool(old(self).reader@, old(self).position as int),
            ),
    {
        match self.read_u32("bool") {
            Ok(0) => Ok(false),
            Ok(1) => Ok(true),
            Ok(raw) => Err(DeserializationError::InvalidBool { raw }),
            Err(error) => Err(error),
        }
    }

    /// Reads a signed 8-bit number from a 32-bit slot.
    pub fn deserialize_i8(&mut self) -> (result: Result<i8, DeserializationError>)
        ensures
            Deserializer::read(
                *old(self),
                *final(self),
                result,
                decode_integer(old(self).reader@, old(self).position as int, 8).map(
                    |value: i32| value as i8,
                ),
            ),
    {
        proof {
            lemma2_to64();
        }
        match self.deserialize_integer(8) {
            Ok(value) => Ok(value as i8),
            Err(error) => Err(error),
        }
    }

    /// Reads a signed 16-bit number from a 32-bit slot.
    pub fn deserialize_i16(&mut self) -> (result: Result<i16, DeserializationError>)
        ensures
            Deserializer::read(
                *old(self),
                *final(self),
                result,
                decode_integer(old(self).reader@, old(self).position as int, 16).map(
                    |value: i32| value as i16,
                ),
            ),
    {
        proof {
            lemma2_to64();
        }
        match self.deserialize_integer(16) {
            Ok(value) => Ok(value as i16),
            Err(error) => Err(error),
        }
    }

    /// Reads a signed 32-bit number.
    pub fn deserialize_i32(&mut self) -> (result: Result<i32, DeserializationError>)
        ensures
            Deserializer::read(
                *old(self),
                *final(self),
                result,
                decode_integer(old(self).reader@, old(self).position as int, 32),
            ),
    {
        self.deserialize_integer(32)
    }

    /// Reads a signed 64-bit number.
    pub fn deserialize_i64(&mut self) -> (result: Result<i64, DeserializationError>)
        ensures
            Deserializer::read(
                *old(self),
                *final(self),
                result,
                decode_u64(old(self).reader@, old(self).position as int, "signed 64-bit integer"@).map(
                    |raw: u64| i64_of_unsigned(raw),
                ),
            ),
    {
        self.read_i64("signed 64-bit integer")
    }

    /// Reads an unsigned 8-bit number from a 32-bit slot.
    pub fn deserialize_u8(&mut self) -> (result: Result<u8, DeserializationError>)
        ensures
            Deserializer::read(
                *old(self),
                *final(self),
                result,
                decode_unsigned_integer(old(self).reader@, old(self).position as int, 8).map(
                    |value: u32| value as u8,
                ),
            ),
    {
        proof {
            lemma2_to64();
        }
        match self.deserialize_unsigned_integer(8) {
            Ok(value) => Ok(value as u8),
            Err(error) => Err(error),
        }
    }

    /// Reads an unsigned 16-bit number from a 32-bit slot.
    pub fn deserialize_u16(&mut self) -> (result: Result<u16, DeserializationError>)
        ensures
            Deserializer::read(
                *old(self),
                *final(self),
                result,
                decode_unsigned_integer(old(self).reader@, old(self).position as int, 16).map(
                    |value: u32| value as u16,
                ),
            ),
    {
        proof {
            lemma2_to64();
        }
        match self.deserialize_unsigned_integer(16) {
            Ok(value) => Ok(value as u16),
            Err(error) => Err(error),
        }
    }

    /// Reads an unsigned 32-bit number.
    pub fn deserialize_u32(&mut self) -> (result: Result<u32, DeserializationError>)
        ensures
            Deserializer::read(
                *old(self),
                *final(self),
                result,
                decode_unsigned_integer(old(self).reader@, old(self).position as int, 32),
            ),
    {
        self.deserialize_unsigned_integer(32)
    }

    /// Reads an unsigned 64-bit number.
    pub fn deserialize_u64(&mut self) -> (result: Result<u64, DeserializationError>)
        ensures
            Deserializer::read(
                *old(self),
                *final(self),
                result,
                decode_u64(
                    old(self).reader@,
                    old(self).position as int,
                    "unsigned 64-bit integer"@,
                ),
            ),
    {
        self.read_u64("unsigned 64-bit integer")
    }

    /// Reads a single-precision number, as the bits of its IEEE-754
    /// representation.
    pub fn deserialize_f32(&mut self) -> (result: Result<u32, DeserializationError>)
        ensures
            Deserializer::read(
                *old(self),
                *final(self),
                result,
                decode_u32(old(self).reader@, old(self).position as int, "float"@),
            ),
    {
        self.read_u32("float")
    }

    /// Reads a double-precision number, as the bits of its IEEE-754
    /// representation.
    pub fn deserialize_f64(&mut self) -> (result: Result<u64, DeserializationError>)
        ensures
            Deserializer::read(
                *old(self),
                *final(self),
                result,
                decode_u64(old(self).reader@, old(self).position as int, "double"@),
            ),
    {
        self.read_u64("double")
    }

    /// Reads a character: a 32-bit Unicode scalar value.
    pub fn deserialize_char(&mut self) -> (result: Result<char, DeserializationError>)
        ensures
            Deserializer::read(
                *old(self),
                *final(self),
                result,
                decode_char(old(self).reader@, old(self).position as int),
            ),
    {
        let raw_value = match self.read_u32("char") {
            Ok(raw_value) => raw_value,
            Err(error) => {
                return Err(error);
            },
        };
        match char_from_u32(raw_value) {
            Some(value) => Ok(value),
            None => Err(DeserializationError::InvalidChar { raw: raw_value }),
        }
    }

    /// Reads a string: opaque data that is UTF-8.
    pub fn deserialize_str(&mut self) -> (result: Result<String, DeserializationError>)
        ensures
            Deserializer::read_view(
                *old(self),
                *final(self),
                result,
                decode_string(old(self).reader@, old(self).position as int),
            ),
    {
        let buffer = match self.deserialize_opaque("string") {
            Ok(buffer) => buffer,
            Err(error) => {
                return Err(error);
            },
        };
        match string_from_utf8(buffer) {
            Some(string) => Ok(string),
            None => Err(DeserializationError::InvalidUtf8),
        }
    }

    /// Reads a string: opaque data that is UTF-8.
    pub fn deserialize_string(&mut self) -> (result: Result<String, DeserializationError>)
        ensures
            Deserializer::read_view(
                *old(self),
                *final(self),
                result,
                decode_string(old(self).reader@, old(self).position as int),
            ),
    {
        self.deserialize_str()
    }

    /// Reads opaque data of variable length.
    pub fn deserialize_bytes(&mut self) -> (result: Result<Vec<u8>, DeserializationError>)
        ensures
            Deserializer::read_view(
                *old(self),
                *final(self),
                result,
                decode_opaque(old(self).reader@, old(self).position as int, "opaque"@),
            ),
    {
        self.deserialize_opaque("opaque")
    }

    /// Reads opaque data of variable length.
    pub fn deserialize_byte_buf(&mut self) -> (result: Result<Vec<u8>, DeserializationError>)
        ensures
            Deserializer::read_view(
                *old(self),
                *final(self),
                result,
                decode_opaque(old(self).reader@, old(self).position as int, "opaque"@),
            ),
    {
        self.deserialize_bytes()
    }

    /// Reads optional data: a 32-bit zero, or a 32-bit one and a value of
    /// the given kind.
    pub fn deserialize_option(&mut self, kind: &Kind) -> (result: Result<
        Option<Value>,
        DeserializationError,
    >)
        ensures
            Deserializer::read_option(
                *old(self),
                *final(self),
                result,
                decode_option(old(self).reader@, old(self).position as int, *kind),
            ),
        decreases kind, 2nat,
    {
        proof {
            reveal(decode);
        }
        let option = match self.read_u32("option") {
            Ok(option) => option,
            Err(error) => {
                return Err(error);
            },
        };
        match option {
            0 => Ok(None),
            1 => match Value::deserialize(kind, &mut *self) {
                Ok(value) => Ok(Some(value)),
                Err(error) => Err(DeserializationError::failure("option", error)),
            },
            _ => Err(DeserializationError::InvalidOption),
        }
    }

    /// Reads a unit value: nothing.
    pub fn deserialize_unit(&mut self) -> (result: Result<(), DeserializationError>)
        ensures
            result is Ok,
            *final(self) == *old(self),
    {
        Ok(())
    }

    /// Reads a unit struct: nothing.
    pub fn deserialize_unit_struct(&mut self, name: &'static str) -> (result: Result<
        (),
        DeserializationError,
    >)
        ensures
            result is Ok,
            *final(self) == *old(self),
    {
        Ok(())
    }

    /// Reads a struct with one unnamed field: the field's value alone.
    pub fn deserialize_newtype_struct(&mut self, name: &'static str, kind: &Kind) -> (result:
        Result<Value, DeserializationError>)
        ensures
            Deserializer::read_view(
                *old(self),
                *final(self),
                result,
                decode_newtype_struct(old(self).reader@, old(self).position as int, name@, *kind),
            ),
        decreases kind, 2nat,
    {
        proof {
            reveal(decode);
        }
        match Value::deserialize(kind, &mut *self) {
            Ok(value) => Ok(value),
            Err(error) => {
                let what = String::from_str("struct ").concat(name);
                Err(DeserializationError::Failure { what, cause: Box::new(error) })
            },
        }
    }

    /// Hands out the deserializer of the elements of a sequence or tuple of
    /// the given length.
    pub fn deserialize_sequence<'a, 's>(&'a mut self, kind_name: &'s str, length: u32) -> (sequence:
        SequenceDeserializer<'a, 'r, 's>)
        ensures
            sequence.length == length,
            sequence.kind_name@ == kind_name@,
            sequence.current_index == 0,
            *sequence.deserializer == *old(self),
            *final(sequence.deserializer) == *final(self),
    {
        SequenceDeserializer::new(length, kind_name, self)
    }

    /// Reads a sequence: a 32-bit length, then that many elements of the
    /// given kind.
    pub fn deserialize_seq(&mut self, element: &Kind) -> (result: Result<
        Vec<Value>,
        DeserializationError,
    >)
        ensures
            Deserializer::read_values(
                *old(self),
                *final(self),
                result,
                decode_seq(old(self).reader@, old(self).position as int, *element),
            ),
        decreases element, 3nat,
    {
        let length = match self.read_u32("sequence") {
            Ok(length) => length,
            Err(error) => {
                return Err(error);
            },
        };
        visit_repeated(self.deserialize_sequence("sequence", length), element)
    }

    /// Reads a tuple: its elements, of the given kinds, without a length. A
    /// tuple of more elements than 32 bits can count is refused.
    pub fn deserialize_tuple(&mut self, elements: &Vec<Kind>) -> (result: Result<
        Vec<Value>,
        DeserializationError,
    >)
        ensures
            Deserializer::read_values(
                *old(self),
                *final(self),
                result,
                decode_tuple(old(self).reader@, old(self).position as int, *elements, "tuple"@),
            ),
        decreases elements, 1nat,
    {
        let length = elements.len();
        if length > u32::MAX as usize {
            return Err(DeserializationError::TupleTooLong { length });
        }
        visit_tuple(self.deserialize_sequence("tuple", length as u32), elements)
    }

    /// Reads a tuple struct: its fields, of the given kinds, without a
    /// length. One of more fields than 32 bits can count is refused.
    pub fn deserialize_tuple_struct(&mut self, name: &'static str, fields: &Vec<Kind>) -> (result:
        Result<Vec<Value>, DeserializationError>)
        ensures
            Deserializer::read_values(
                *old(self),
                *final(self),
                result,
                decode_tuple(
                    old(self).reader@,
                    old(self).position as int,
                    *fields,
                    tuple_struct_name(name@),
                ),
            ),
        decreases fields, 1nat,
    {
        let length = fields.len();
        if length > u32::MAX as usize {
            return Err(DeserializationError::TupleTooLong { length });
        }
        let kind_name = String::from_str("tuple struct ").concat(name);
        visit_tuple(self.deserialize_sequence(kind_name.as_str(), length as u32), fields)
    }

    /// Refuses a map, which the format cannot carry.
    pub fn deserialize_map(&mut self) -> (result: Result<Value, DeserializationError>)
        ensures
            result is Err,
            result->Err_0@ == SpecDeserializationError::MapNotSupported,
            *final(self) == *old(self),
    {
        Err(DeserializationError::MapNotSupported)
    }

    /// Reads a struct: its fields in order, without delimiters.
    pub fn deserialize_struct<'a>(&'a mut self, name: &'static str, fields: &'a Vec<FieldKind>) -> (result:
        Result<Vec<Field>, DeserializationError>)
        ensures
            Deserializer::read_fields(
                *old(self),
                *final(self),
                result,
                decode_fields(
                    old(self).reader@,
                    old(self).position as int,
                    *fields,
                    fields@.len(),
                    name@,
                ),
            ),
        decreases fields, 1nat,
    {
        let struct_deserializer = StructDeserializer::new(name, fields, self);
        visit_struct(struct_deserializer, fields)
    }

    /// Reads a union: a 32-bit discriminant, which must select one of the
    /// variants, then what that variant holds.
    pub fn deserialize_enum(&mut self, name: &'static str, variants: &Vec<VariantKind>) -> (result:
        Result<Value, DeserializationError>)
        ensures
            Deserializer::read_view(
                *old(self),
                *final(self),
                result,
                decode_enum(old(self).reader@, old(self).position as int, name@, *variants),
            ),
        decreases variants, 1nat,
    {
        let what = String::from_str("enum ").concat(name);
        let variant = match self.read_u32(what.as_str()) {
            Ok(variant) => variant,
            Err(error) => {
                return Err(error);
            },
        };
        if variant as usize >= variants.len() {
            return Err(
                DeserializationError::InvalidEnumVariant {
                    variant,
                    variants: names_of_variants(variants),
                },
            );
        }
        let selected = &variants[variant as usize];
        let enum_deserializer = EnumDeserializer::new(name, variant, selected.name, self);
        visit_enum(enum_deserializer, selected)
    }

    /// Refuses an identifier: the format carries no names.
    pub fn deserialize_identifier(&mut self) -> (result: Result<Value, DeserializationError>)
        ensures
            result is Err,
            result->Err_0@ == SpecDeserializationError::IdentifierNotSupported,
            *final(self) == *old(self),
    {
        Err(DeserializationError::IdentifierNotSupported)
    }

    /// Refuses to skip a value: without its kind, its length is not known.
    pub fn deserialize_ignored_any(&mut self) -> (result: Result<Value, DeserializationError>)
        ensures
            result is Err,
            result->Err_0@ == SpecDeserializationError::UnknownType,
            *final(self) == *old(self),
    {
        Err(DeserializationError::UnknownType)
    }
}

impl Value {
    /// Deserializes a value of the given kind.
    pub fn deserialize<'r>(kind: &Kind, deserializer: &mut Deserializer<'r>) -> (result: Result<
        Value,
        DeserializationError,
    >)
        ensures
            Deserializer::read_view(
                *old(deserializer),
                *final(deserializer),
                result,
                decode(old(deserializer).reader@, old(deserializer).position as int, *kind),
            ),
        decreases kind, 0nat,
    {
        proof {
            reveal(decode);
        }
        match kind {
            Kind::Any => deserializer.deserialize_any(),
            Kind::Bool => match deserializer.deserialize_bool() {
                Ok(value) => Ok(Value::Bool(value)),
                Err(error) => Err(error),
            },
            Kind::Integer8 => match deserializer.deserialize_i8() {
                Ok(value) => Ok(Value::Integer8(value)),
                Err(error) => Err(error),
            },
            Kind::Integer16 => match deserializer.deserialize_i16() {
                Ok(value) => Ok(Value::Integer16(value)),
                Err(error) => Err(error),
            },
            Kind::Integer32 => match deserializer.deserialize_i32() {
                Ok(value) => Ok(Value::Integer32(value)),
                Err(error) => Err(error),
            },
            Kind::Integer64 => match deserializer.deserialize_i64() {
                Ok(value) => Ok(Value::Integer64(value)),
                Err(error) => Err(error),
            },
            Kind::UnsignedInteger8 => match deserializer.deserialize_u8() {
                Ok(value) => Ok(Value::UnsignedInteger8(value)),
                Err(error) => Err(error),
            },
            Kind::UnsignedInteger16 => match deserializer.deserialize_u16() {
                Ok(value) => Ok(Value::UnsignedInteger16(value)),
                Err(error) => Err(error),
            },
            Kind::UnsignedInteger32 => match deserializer.deserialize_u32() {
                Ok(value) => Ok(Value::UnsignedInteger32(value)),
                Err(error) => Err(error),
            },
            Kind::UnsignedInteger64 => match deserializer.deserialize_u64() {
                Ok(value) => Ok(Value::UnsignedInteger64(value)),
                Err(error) => Err(error),
            },
            Kind::Float => match deserializer.deserialize_f32() {
                Ok(bits) => Ok(Value::Float(bits)),
                Err(error) => Err(error),
            },
            Kind::Double => match deserializer.deserialize_f64() {
                Ok(bits) => Ok(Value::Double(bits)),
                Err(error) => Err(error),
            },
            Kind::Char => match deserializer.deserialize_char() {
                Ok(value) => Ok(Value::Char(value)),
                Err(error) => Err(error),
            },
            Kind::String => match deserializer.deserialize_string() {
                Ok(value) => Ok(Value::String(value)),
                Err(error) => Err(error),
            },
            Kind::Bytes => match deserializer.deserialize_byte_buf() {
                Ok(value) => Ok(Value::Bytes(value)),
                Err(error) => Err(error),
            },
            Kind::Optional(inner) => match deserializer.deserialize_option(inner) {
                Ok(Some(value)) => Ok(Value::Optional(Some(Box::new(value)))),
                Ok(None) => Ok(Value::Optional(None)),
                Err(error) => Err(error),
            },
            Kind::Unit => match deserializer.deserialize_unit() {
                Ok(()) => Ok(Value::Unit),
                Err(error) => Err(error),
            },
            Kind::UnitStruct { name } => match deserializer.deserialize_unit_struct(name) {
                Ok(()) => Ok(Value::UnitStruct { name }),
                Err(error) => Err(error),
            },
            Kind::NewtypeStruct { name, kind } => match deserializer.deserialize_newtype_struct(
                name,
                kind,
            ) {
                Ok(value) => Ok(Value::NewtypeStruct { name, value: Box::new(value) }),
                Err(error) => Err(error),
            },
            Kind::Sequence(element) => match deserializer.deserialize_seq(element) {
                Ok(items) => Ok(Value::Sequence(items)),
                Err(error) => Err(error),
            },
            Kind::Tuple(kinds) => match deserializer.deserialize_tuple(kinds) {
                Ok(items) => Ok(Value::Tuple(items)),
                Err(error) => Err(error),
            },
            Kind::TupleStruct { name, fields } => match deserializer.deserialize_tuple_struct(
                name,
                fields,
            ) {
                Ok(fields) => Ok(Value::TupleStruct { name, fields }),
                Err(error) => Err(error),
            },
            Kind::Dictionary => deserializer.deserialize_map(),
            Kind::Struct { name, fields } => match deserializer.deserialize_struct(name, fields) {
                Ok(fields) => Ok(Value::Struct { name, fields }),
                Err(error) => Err(error),
            },
            Kind::Enum { name, variants } => deserializer.deserialize_enum(name, variants),
            Kind::Identifier => deserializer.deserialize_identifier(),
            Kind::IgnoredAny => deserializer.deserialize_ignored_any(),
        }
    }
}

} // verus!
