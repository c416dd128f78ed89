//! The serializer's operations, one for each kind of value.

pub mod sequence_serializer;
pub mod struct_serializer;

use self::sequence_serializer::name::TypeName;
use self::sequence_serializer::SequenceSerializer;
use self::struct_serializer::StructSerializer;
use crate::framing::{
    be_i32, be_i64, be_u32, be_u64, padding_size, write_i32, write_i64, write_u32, write_u64,
    zeros,
};
use crate::ser::encoding::{
    encode, encode_length, encode_opaque, encode_string, newtype_struct_what,
    newtype_variant_what, some_what, value_what, Encoding,
};
use crate::ser::errors::{SerializationError, SpecSerializationError};
use crate::ser::Serializer;
use crate::value::Value;
use vstd::prelude::*;
use vstd::string::StringExecFns;

verus! {

/// Appends `count` zero bytes.
fn write_zeros(writer: &mut Vec<u8>, count: usize)
    ensures
        final(writer)@ == old(writer)@ + zeros(count as nat),
{
    let mut written: usize = 0;
    while written < count
        invariant
            written <= count,
            writer@ == old(writer)@ + zeros(written as nat),
        decreases count - written,
    {
        writer.push(0u8);
        written = written + 1;
        assert(writer@ =~= old(writer)@ + zeros(written as nat));
    }
}

impl<'w> Serializer<'w> {
    /// Writes a boolean as a 32-bit zero or one.
    pub fn serialize_bool(self, value: bool) -> (result: Result<Self, SerializationError>)
        ensures
            result matches Ok(after) && after.writer@ == old(self.writer)@ + be_u32(
                if value {
                    1
                } else {
                    0
                },
            ) && *final(after.writer) == *final(self.writer),
    {
        self.serialize_u32(
            if value {
                1
            } else {
                0
            },
        )
    }

    /// Writes a signed 32-bit number.
    pub fn serialize_i32(self, value: i32) -> (result: Result<Self, SerializationError>)
        ensures
            result matches Ok(after) && after.writer@ == old(self.writer)@ + be_i32(value)
                && *final(after.writer) == *final(self.writer),
    {
        let bytes = write_i32(value);
        self.writer.extend_from_slice(bytes.as_slice());
        Ok(self)
    }

    /// Writes an unsigned 32-bit number.
    pub fn serialize_u32(self, value: u32) -> (result: Result<Self, SerializationError>)
        ensures
            result matches Ok(after) && after.writer@ == old(self.writer)@ + be_u32(value)
                && *final(after.writer) == *final(self.writer),
    {
        let bytes = write_u32(value);
        self.writer.extend_from_slice(bytes.as_slice());
        Ok(self)
    }

    /// Writes a signed 8-bit number in a 32-bit slot.
    pub fn serialize_i8(self, value: i8) -> (result: Result<Self, SerializationError>)
        ensures
            result matches Ok(after) && after.writer@ == old(self.writer)@ + be_i32(value as i32)
                && *final(after.writer) == *final(self.writer),
    {
        self.serialize_i32(value as i32)
    }

    /// Writes a signed 16-bit number in a 32-bit slot.
    pub fn serialize_i16(self, value: i16) -> (result: Result<Self, SerializationError>)
        ensures
            result matches Ok(after) && after.writer@ == old(self.writer)@ + be_i32(value as i32)
                && *final(after.writer) == *final(self.writer),
    {
        self.serialize_i32(value as i32)
    }

    /// Writes a signed 64-bit number.
    pub fn serialize_i64(self, value: i64) -> (result: Result<Self, SerializationError>)
        ensures
            result matches Ok(after) && after.writer@ == old(self.writer)@ + be_i64(value)
                && *final(after.writer) == *final(self.writer),
    {
        let bytes = write_i64(value);
        self.writer.extend_from_slice(bytes.as_slice());
        Ok(self)
    }

    /// Writes an unsigned 8-bit number in a 32-bit slot.
    pub fn serialize_u8(self, value: u8) -> (result: Result<Self, SerializationError>)
        ensures
            result matches Ok(after) && after.writer@ == old(self.writer)@ + be_u32(value as u32)
                && *final(after.writer) == *final(self.writer),
    {
        self.serialize_u32(value as u32)
    }

    /// Writes an unsigned 16-bit number in a 32-bit slot.
    pub fn serialize_u16(self, value: u16) -> (result: Result<Self, SerializationError>)
        ensures
            result matches Ok(after) && after.writer@ == old(self.writer)@ + be_u32(value as u32)
                && *final(after.writer) == *final(self.writer),
    {
        self.serialize_u32(value as u32)
    }

    /// Writes an unsigned 64-bit number.
    pub fn serialize_u64(self, value: u64) -> (result: Result<Self, SerializationError>)
        ensures
            result matches Ok(after) && after.writer@ == old(self.writer)@ + be_u64(value)
                && *final(after.writer) == *final(self.writer),
    {
        let bytes = write_u64(value);
        self.writer.extend_from_slice(bytes.as_slice());
        Ok(self)
    }

    /// Writes a single-precision number, given as the bits of its IEEE-754
    /// representation.
    pub fn serialize_f32(self, bits: u32) -> (result: Result<Self, SerializationError>)
        ensures
            result matches Ok(after) && after.writer@ == old(self.writer)@ + be_u32(bits)
                && *final(after.writer) == *final(self.writer),
    {
        self.serialize_u32(bits)
    }

    /// Writes a double-precision number, given as the bits of its IEEE-754
    /// representation.
    pub fn serialize_f64(self, bits: u64) -> (result: Result<Self, SerializationError>)
        ensures
            result matches Ok(after) && after.writer@ == old(self.writer)@ + be_u64(bits)
                && *final(after.writer) == *final(self.writer),
    {
        self.serialize_u64(bits)
    }

    /// Writes a character as its 32-bit scalar value.
    pub fn serialize_char(self, value: char) -> (result: Result<Self, SerializationError>)
        ensures
            result matches Ok(after) && after.writer@ == old(self.writer)@ + be_u32(value as u32)
                && *final(after.writer) == *final(self.writer),
    {
        self.serialize_u32(value as u32)
    }

    /// Writes opaque data: its length, its bytes, and zeros up to a multiple
    /// of four bytes. Data too long for a 32-bit length is refused before
    /// anything is written.
    pub fn serialize_bytes(self, value: &[u8]) -> (result: Result<Self, SerializationError>)
        ensures
            Serializer::outcome(old(self.writer)@, result, encode_opaque(value@)),
            result matches Ok(after) ==> *final(after.writer) == *final(self.writer),
            result is Err ==> final(self.writer)@ == old(self.writer)@,
    {
        let length = value.len();
        if length > u32::MAX as usize {
            return Err(SerializationError::OpaqueTooLong { length });
        }
        let padding = padding_size(length);
        match self.serialize_u32(length as u32) {
            Ok(serializer) => {
                serializer.writer.extend_from_slice(value);
                write_zeros(serializer.writer, padding);
                assert(serializer.writer@ =~= old(self.writer)@ + encode_opaque(value@).bytes);
                Ok(serializer)
            },
            Err(error) => Err(error),
        }
    }

    /// Writes a string as opaque data. A string too long for a 32-bit
    /// length, or one that is not ASCII, is refused before anything is
    /// written.
    pub fn serialize_str(self, value: &str) -> (result: Result<Self, SerializationError>)
        ensures
            Serializer::outcome(old(self.writer)@, result, encode_string(value@)),
            result matches Ok(after) ==> *final(after.writer) == *final(self.writer),
            result is Err ==> final(self.writer)@ == old(self.writer)@,
    {
        let bytes = value.as_bytes();
        if bytes.len() > u32::MAX as usize {
            return Err(SerializationError::StringTooLong { string: String::from_str(value) });
        }
        if !value.is_ascii() {
            return Err(SerializationError::StringNotAscii { string: String::from_str(value) });
        }
        self.serialize_bytes(bytes)
    }

    /// Wraps an error in a failure that names the value and its type.
    pub fn serialize_failure(kind_name: &str, value: &str, error: SerializationError) -> (wrapped:
        SerializationError)
        ensures
            wrapped@ == (SpecSerializationError::Failure {
                what: value_what(value@, kind_name@),
                cause: Box::new(error@),
            }),
    {
        let what = String::from_str("a value ").concat(value).concat(" of type ").concat(
            kind_name,
        );
        SerializationError::Failure { what, cause: Box::new(error) }
    }

    /// Writes absent optional data: a 32-bit zero.
    pub fn serialize_none(self) -> (result: Result<Self, SerializationError>)
        ensures
            result matches Ok(after) && after.writer@ == old(self.writer)@ + be_u32(0)
                && *final(after.writer) == *final(self.writer),
    {
        self.serialize_u32(0)
    }

    /// Writes present optional data: a 32-bit one, then the value.
    pub fn serialize_some(self, value: &Value) -> (result: Result<Self, SerializationError>)
        ensures
            Serializer::outcome(
                old(self.writer)@,
                result,
                Encoding::complete(be_u32(1)).followed_by(encode(value@).within(some_what())),
            ),
            result matches Ok(after) ==> *final(after.writer) == *final(self.writer),
            result is Err ==> final(self.writer)@ == old(self.writer)@ + be_u32(1) + encode(
                value@,
            ).bytes,
        decreases value, 1nat,
    {
        match self.serialize_u32(1) {
            Ok(serializer) => match value.serialize(serializer) {
                Ok(serializer) => {
                    assert(serializer.writer@ =~= old(self.writer)@ + (be_u32(1) + encode(
                        value@,
                    ).bytes));
                    Ok(serializer)
                },
                Err(error) => Err(Self::serialize_failure("'some'", "optional data", error)),
            },
            Err(error) => Err(error),
        }
    }

    /// Writes a unit value: nothing.
    pub fn serialize_unit(self) -> (result: Result<Self, SerializationError>)
        ensures
            result matches Ok(after) && after.writer@ == old(self.writer)@ && *final(after.writer)
                == *final(self.writer),
    {
        Ok(self)
    }

    /// Writes a unit struct: nothing.
    pub fn serialize_unit_struct(self, name: &'static str) -> (result: Result<
        Self,
        SerializationError,
    >)
        ensures
            result matches Ok(after) && after.writer@ == old(self.writer)@ && *final(after.writer)
                == *final(self.writer),
    {
        Ok(self)
    }

    /// Writes a unit variant: its 32-bit discriminant.
    pub fn serialize_unit_variant(
        self,
        name: &'static str,
        variant_index: u32,
        variant: &'static str,
    ) -> (result: Result<Self, SerializationError>)
        ensures
            result matches Ok(after) && after.writer@ == old(self.writer)@ + be_u32(variant_index)
                && *final(after.writer) == *final(self.writer),
    {
        self.serialize_u32(variant_index)
    }

    /// Writes a struct with one unnamed field: the field's value alone.
    pub fn serialize_newtype_struct(self, name: &'static str, value: &Value) -> (result: Result<
        Self,
        SerializationError,
    >)
        ensures
            Serializer::outcome(
                old(self.writer)@,
                result,
                encode(value@).within(newtype_struct_what(name@)),
            ),
            result matches Ok(after) ==> *final(after.writer) == *final(self.writer),
            result is Err ==> final(self.writer)@ == old(self.writer)@ + encode(value@).bytes,
        decreases value, 1nat,
    {
        match value.serialize(self) {
            Ok(serializer) => Ok(serializer),
            Err(error) => {
                let what = String::from_str("struct ").concat(name);
                Err(SerializationError::Failure { what, cause: Box::new(error) })
            },
        }
    }

    /// Writes a variant with one unnamed field: the 32-bit discriminant,
    /// then the field's value.
    pub fn serialize_newtype_variant(
        self,
        name: &'static str,
        variant_index: u32,
        variant: &'static str,
        value: &Value,
    ) -> (result: Result<Self, SerializationError>)
        ensures
            Serializer::outcome(
                old(self.writer)@,
                result,
                Encoding::complete(be_u32(variant_index)).followed_by(
                    encode(value@).within(newtype_variant_what(name@, variant@)),
                ),
            ),
            result matches Ok(after) ==> *final(after.writer) == *final(self.writer),
            result is Err ==> final(self.writer)@ == old(self.writer)@ + be_u32(variant_index)
                + encode(value@).bytes,
        decreases value, 1nat,
    {
        match self.serialize_u32(variant_index) {
            Ok(serializer) => match value.serialize(serializer) {
                Ok(serializer) => {
                    assert(serializer.writer@ =~= old(self.writer)@ + (be_u32(variant_index)
                        + encode(value@).bytes));
                    Ok(serializer)
                },
                Err(error) => {
                    let what = String::from_str("union variant ").concat(name).concat(
                        "::",
                    ).concat(variant);
                    Err(SerializationError::Failure { what, cause: Box::new(error) })
                },
            },
            Err(error) => Err(error),
        }
    }

    /// Starts a sequence: writes its length, which must be known and fit in
    /// 32 bits, and hands out the serializer of its elements.
    pub fn serialize_seq(self, length: Option<usize>) -> (result: Result<
        SequenceSerializer<'w>,
        SerializationError,
    >)
        ensures
            match length {
                Some(length) => match encode_length(length as nat).error {
                    None => {
                        &&& result is Ok
                        &&& result->Ok_0.kind_name == TypeName::Sequence
                        &&& result->Ok_0.current_index == 0
                        &&& result->Ok_0.serializer is Some
                        &&& result->Ok_0.serializer->Some_0.writer@ == old(self.writer)@
                            + encode_length(length as nat).bytes
                        &&& *final(result->Ok_0.serializer->Some_0.writer) == *final(self.writer)
                    },
                    Some(error) => {
                        &&& result is Err
                        &&& result->Err_0@ == error
                        &&& final(self.writer)@ == old(self.writer)@
                    },
                },
                None => {
                    &&& result is Err
                    &&& result->Err_0@ == SpecSerializationError::SequenceUnknownLength
                    &&& final(self.writer)@ == old(self.writer)@
                },
            },
    {
        SequenceSerializer::start_sequence(length, self)
    }

    /// Starts a tuple, which has no length prefix, and hands out the
    /// serializer of its elements.
    pub fn serialize_tuple(self, length: usize) -> (result: Result<
        SequenceSerializer<'w>,
        SerializationError,
    >)
        ensures
            result is Ok,
            result->Ok_0.kind_name == TypeName::Tuple,
            result->Ok_0.current_index == 0,
            result->Ok_0.serializer is Some,
            result->Ok_0.serializer->Some_0.writer@ == old(self.writer)@,
            *final(result->Ok_0.serializer->Some_0.writer) == *final(self.writer),
    {
        Ok(SequenceSerializer::start_tuple(self))
    }

    /// Starts a tuple struct, which has no length prefix, and hands out the
    /// serializer of its fields.
    pub fn serialize_tuple_struct(self, name: &'static str, length: usize) -> (result: Result<
        SequenceSerializer<'w>,
        SerializationError,
    >)
        ensures
            result is Ok,
            result->Ok_0.kind_name == TypeName::TupleStruct(name),
            result->Ok_0.current_index == 0,
            result->Ok_0.serializer is Some,
            result->Ok_0.serializer->Some_0.writer@ == old(self.writer)@,
            *final(result->Ok_0.serializer->Some_0.writer) == *final(self.writer),
    {
        Ok(SequenceSerializer::start_tuple_struct(name, self))
    }

    /// Starts a tuple variant: writes its 32-bit discriminant and hands out
    /// the serializer of its fields.
    pub fn serialize_tuple_variant(
        self,
        name: &'static str,
        variant_index: u32,
        variant: &'static str,
        length: usize,
    ) -> (result: Result<SequenceSerializer<'w>, SerializationError>)
        ensures
            result is Ok,
            result->Ok_0.kind_name == TypeName::TupleVariant(name, variant),
            result->Ok_0.current_index == 0,
            result->Ok_0.serializer is Some,
            result->Ok_0.serializer->Some_0.writer@ == old(self.writer)@ + be_u32(variant_index),
            *final(result->Ok_0.serializer->Some_0.writer) == *final(self.writer),
    {
        match self.serialize_u32(variant_index) {
            Ok(serializer) => Ok(SequenceSerializer::start_tuple_variant(name, variant, serializer)),
            Err(error) => Err(error),
        }
    }

    /// Refuses a map, which the format cannot carry.
    pub fn serialize_map(self, length: Option<usize>) -> (result: Result<Self, SerializationError>)
        ensures
            result is Err,
            result->Err_0@ == SpecSerializationError::MapNotSupported,
            final(self.writer)@ == old(self.writer)@,
    {
        Err(SerializationError::MapNotSupported)
    }

    /// Starts a struct, which has no prefix, and hands out the serializer of
    /// its fields.
    pub fn serialize_struct(self, name: &'static str, length: usize) -> (result: Result<
        StructSerializer<'w>,
        SerializationError,
    >)
        ensures
            result is Ok,
            result->Ok_0.struct_name == struct_serializer::name::TypeName::Struct(name),
            result->Ok_0.serializer is Some,
            result->Ok_0.serializer->Some_0.writer@ == old(self.writer)@,
            *final(result->Ok_0.serializer->Some_0.writer) == *final(self.writer),
    {
        Ok(StructSerializer::start_struct(name, self))
    }

    /// Starts a struct variant: writes its 32-bit discriminant and hands out
    /// the serializer of its fields.
    pub fn serialize_struct_variant(
        self,
        name: &'static str,
        variant_index: u32,
        variant: &'static str,
        length: usize,
    ) -> (result: Result<StructSerializer<'w>, SerializationError>)
        ensures
            result is Ok,
            result->Ok_0.struct_name == struct_serializer::name::TypeName::StructVariant(
                name,
                variant,
            ),
            result->Ok_0.serializer is Some,
            result->Ok_0.serializer->Some_0.writer@ == old(self.writer)@ + be_u32(variant_index),
            *final(result->Ok_0.serializer->Some_0.writer) == *final(self.writer),
    {
        match self.serialize_u32(variant_index) {
            Ok(serializer) => Ok(
                StructSerializer::start_struct_variant(name, variant, serializer),
            ),
            Err(error) => Err(error),
        }
    }
}

} // verus!
