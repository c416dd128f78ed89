//! Decoding of values.

pub mod decoding;
pub mod deserializer;
pub mod errors;

pub use self::decoding::{decode, Decoded};
pub use self::errors::{DeserializationError, SpecDeserializationError};

use self::decoding::{
    decode_integer, decode_opaque, decode_u32, decode_u64, decode_unsigned_integer, is_char,
    lemma_decode_within_input,
};
use crate::framing::{
    i32_of_unsigned, i64_of_unsigned, padding_size, read_i32, read_i64, read_u32, read_u64,
};
use crate::kind::Kind;
use crate::text::decimal;
use crate::value::{field_models, models, Field, SpecField, SpecValue, Value};
use vstd::arithmetic::power2::{lemma2_to64, lemma2_to64_rest};
use vstd::bits::{lemma_u32_shl_is_mul, lemma_u64_shl_is_mul};
use vstd::prelude::*;
use vstd::slice::{slice_subrange, slice_to_vec};
use vstd::string::StringExecFns;
use vstd::utf8::{decode_utf8, valid_utf8};

verus! {

/// Calls `char::from_u32`. The contract claims that it gives the character
/// with the given scalar value, and none for a number that is no Unicode
/// scalar value: one above `0x10FFFF`, or a surrogate.
#[verifier::external_body]
pub(crate) fn char_from_u32(raw: u32) -> (value: Option<char>)
    ensures
        is_char(raw) ==> value == Some(raw as char),
        !is_char(raw) ==> value is None,
{
    char::from_u32(raw)
}

/// Calls `String::from_utf8`. The contract claims that it gives the string
/// that the bytes encode where they are UTF-8, and none where they are not.
#[verifier::external_body]
pub(crate) fn string_from_utf8(bytes: Vec<u8>) -> (text: Option<String>)
    ensures
        valid_utf8(bytes@) ==> text is Some && text->Some_0@ == decode_utf8(bytes@),
        !valid_utf8(bytes@) ==> text is None,
{
    String::from_utf8(bytes).ok()
}

/// Deserializer for the XDR format.
///
/// Holds the bytes it deserializes data from, and the position of the next
/// byte to read. A read either delivers all the bytes it asks for, or fails
/// and leaves the position where it was.
pub struct Deserializer<'r> {
    /// The bytes to read from.
    pub reader: &'r [u8],
    /// The position of the next byte to read.
    pub position: usize,
}

impl<'r> Deserializer<'r> {
    /// Create a new instance that deserializes data from the given bytes,
    /// starting with the first.
    pub fn new(reader: &'r [u8]) -> (deserializer: Self)
        ensures
            deserializer.reader@ == reader@,
            deserializer.position == 0,
    {
        Deserializer { reader, position: 0 }
    }

    /// Whether a step from `before` to `after` with `result` is what
    /// `decoded` describes: the same bytes, the position it gives, and its
    /// value or error.
    pub open spec fn read<T>(
        before: Deserializer<'r>,
        after: Deserializer<'r>,
        result: Result<T, DeserializationError>,
        decoded: Decoded<T>,
    ) -> bool {
        &&& after.reader == before.reader
        &&& after.position == decoded.position
        &&& match decoded.result {
            Ok(value) => result is Ok && result->Ok_0 == value,
            Err(error) => result is Err && result->Err_0@ == error,
        }
    }

    /// As [`Deserializer::read`], for a value that is described by its view.
    pub open spec fn read_view<T: View>(
        before: Deserializer<'r>,
        after: Deserializer<'r>,
        result: Result<T, DeserializationError>,
        decoded: Decoded<T::V>,
    ) -> bool {
        &&& after.reader == before.reader
        &&& after.position == decoded.position
        &&& match decoded.result {
            Ok(value) => result is Ok && result->Ok_0@ == value,
            Err(error) => result is Err && result->Err_0@ == error,
        }
    }

    /// As [`Deserializer::read`], for a list of values.
    pub open spec fn read_values(
        before: Deserializer<'r>,
        after: Deserializer<'r>,
        result: Result<Vec<Value>, DeserializationError>,
        decoded: Decoded<Seq<SpecValue>>,
    ) -> bool {
        &&& after.reader == before.reader
        &&& after.position == decoded.position
        &&& match decoded.result {
            Ok(values) => result is Ok && models(result->Ok_0@) == values,
            Err(error) => result is Err && result->Err_0@ == error,
        }
    }

    /// As [`Deserializer::read`], for a list of fields.
    pub open spec fn read_fields(
        before: Deserializer<'r>,
        after: Deserializer<'r>,
        result: Result<Vec<Field>, DeserializationError>,
        decoded: Decoded<Seq<SpecField>>,
    ) -> bool {
        &&& after.reader == before.reader
        &&& after.position == decoded.position
        &&& match decoded.result {
            Ok(fields) => result is Ok && field_models(result->Ok_0@) == fields,
            Err(error) => result is Err && result->Err_0@ == error,
        }
    }

    /// As [`Deserializer::read`], for optional data.
    pub open spec fn read_option(
        before: Deserializer<'r>,
        after: Deserializer<'r>,
        result: Result<Option<Value>, DeserializationError>,
        decoded: Decoded<Option<SpecValue>>,
    ) -> bool {
        &&& after.reader == before.reader
        &&& after.position == decoded.position
        &&& match decoded.result {
            Ok(Some(value)) => result is Ok && result->Ok_0 is Some && result->Ok_0->Some_0@
                == value,
            Ok(None) => result is Ok && result->Ok_0 is None,
            Err(error) => result is Err && result->Err_0@ == error,
        }
    }

    /// The number of bytes that are left to read.
    pub fn remaining(&self) -> (count: usize)
        ensures
            self.reader@.len() <= usize::MAX,
            count == if self.position <= self.reader@.len() {
                self.reader@.len() - self.position
            } else {
                0
            },
    {
        if self.position <= self.reader.len() {
            self.reader.len() - self.position
        } else {
            0
        }
    }

    /// Reads a 32-bit slot.
    pub fn read_u32(&mut self, what: &str) -> (result: Result<u32, DeserializationError>)
        ensures
            Deserializer::read(
                *old(self),
                *final(self),
                result,
                decode_u32(old(self).reader@, old(self).position as int, what@),
            ),
    {
        if self.remaining() >= 4 {
            let slot = slice_subrange(self.reader, self.position, self.position + 4);
            let value = read_u32(slot);
            self.position = self.position + 4;
            Ok(value)
        } else {
            Err(DeserializationError::end_of_input(what))
        }
    }

    /// Reads a 64-bit slot.
    pub fn read_u64(&mut self, what: &str) -> (result: Result<u64, DeserializationError>)
        ensures
            Deserializer::read(
                *old(self),
                *final(self),
                result,
                decode_u64(old(self).reader@, old(self).position as int, what@),
            ),
    {
        if self.remaining() >= 8 {
            let slot = slice_subrange(self.reader, self.position, self.position + 8);
            let value = read_u64(slot);
            self.position = self.position + 8;
            Ok(value)
        } else {
            Err(DeserializationError::end_of_input(what))
        }
    }

    /// Reads a 32-bit slot as a signed number.
    pub fn read_i32(&mut self, what: &str) -> (result: Result<i32, DeserializationError>)
        ensures
            Deserializer::read(
                *old(self),
                *final(self),
                result,
                decode_u32(old(self).reader@, old(self).position as int, what@).map(
                    |raw: u32| i32_of_unsigned(raw),
                ),
            ),
    {
        if self.remaining() >= 4 {
            let slot = slice_subrange(self.reader, self.position, self.position + 4);
            let value = read_i32(slot);
            self.position = self.position + 4;
            Ok(value)
        } else {
            Err(DeserializationError::end_of_input(what))
        }
    }

    /// Reads a 64-bit slot as a signed number.
    pub fn read_i64(&mut self, what: &str) -> (result: Result<i64, DeserializationError>)
        ensures
            Deserializer::read(
                *old(self),
                *final(self),
                result,
                decode_u64(old(self).reader@, old(self).position as int, what@).map(
                    |raw: u64| i64_of_unsigned(raw),
                ),
            ),
    {
        if self.remaining() >= 8 {
            let slot = slice_subrange(self.reader, self.position, self.position + 8);
            let value = read_i64(slot);
            self.position = self.position + 8;
            Ok(value)
        } else {
            Err(DeserializationError::end_of_input(what))
        }
    }

    /// Reads a 32-bit slot and tells whether the number it holds fits in a
    /// signed integer of `bits` bits.
    pub fn deserialize_integer(&mut self, bits: u8) -> (result: Result<i32, DeserializationError>)
        requires
            1 <= bits <= 32,
        ensures
            Deserializer::read(
                *old(self),
                *final(self),
                result,
                decode_integer(old(self).reader@, old(self).position as int, bits),
            ),
    {
        let width = decimal(bits as u64);
        let what = String::from_str("signed ").concat(width.as_str()).concat("-bit integer");
        let value = match self.read_i32(what.as_str()) {
            Ok(value) => value,
            Err(error) => {
                return Err(error);
            },
        };
        let most_significant_bit: u32 = 1u32 << ((bits - 1) as u32);
        proof {
            lemma2_to64();
            lemma_u32_shl_is_mul(1u32, (bits - 1) as u32);
        }
        let max_value = (most_significant_bit - 1) as i32;
        let min_value = -max_value - 1;
        if value >= min_value && value <= max_value {
            Ok(value)
        } else {
            Err(DeserializationError::InvalidSignedInteger { bits, value })
        }
    }

    /// Reads a 32-bit slot and tells whether the number it holds fits in an
    /// unsigned integer of `bits` bits.
    pub fn deserialize_unsigned_integer(&mut self, bits: u8) -> (result: Result<
        u32,
        DeserializationError,
    >)
        requires
            1 <= bits <= 32,
        ensures
            Deserializer::read(
                *old(self),
                *final(self),
                result,
                decode_unsigned_integer(old(self).reader@, old(self).position as int, bits),
            ),
    {
        let width = decimal(bits as u64);
        let what = String::from_str("unsigned ").concat(width.as_str()).concat("-bit integer");
        let value = match self.read_u32(what.as_str()) {
            Ok(value) => value,
            Err(error) => {
                return Err(error);
            },
        };
        let most_significant_bit: u64 = 1u64 << (bits as u64);
        proof {
            lemma2_to64();
            lemma2_to64_rest();
            lemma_u64_shl_is_mul(1u64, bits as u64);
        }
        let max_value = (most_significant_bit - 1) as u32;
        if value <= max_value {
            Ok(value)
        } else {
            Err(DeserializationError::InvalidUnsignedInteger { bits, value })
        }
    }

    /// Reads opaque data: a 32-bit length, that many bytes, and the padding
    /// up to a multiple of four bytes, which is dropped.
    pub fn deserialize_opaque(&mut self, what: &str) -> (result: Result<
        Vec<u8>,
        DeserializationError,
    >)
        ensures
            Deserializer::read_view(
                *old(self),
                *final(self),
                result,
                decode_opaque(old(self).reader@, old(self).position as int, what@),
            ),
    {
        let length = match self.read_u32(what) {
            Ok(length) => length,
            Err(error) => {
                return Err(error);
            },
        };
        let padding_size = padding_size(length as usize);
        let buffer_length: u64 = length as u64 + padding_size as u64;
        if buffer_length <= self.remaining() as u64 {
            let start = self.position;
            let buffer = slice_to_vec(slice_subrange(self.reader, start, start + length as usize));
            self.position = start + buffer_length as usize;
            Ok(buffer)
        } else {
            Err(DeserializationError::end_of_input(what))
        }
    }
}

/// Deserializes a value of the given kind from a slice of bytes, starting
/// with the first. Bytes after the value are left unread.
pub fn from_bytes(bytes: &[u8], kind: &Kind) -> (result: Result<Value, DeserializationError>)
    ensures
        match decode(bytes@, 0, *kind).result {
            Ok(value) => result is Ok && result->Ok_0@ == value,
            Err(error) => result is Err && result->Err_0@ == error,
        },
{
    let mut deserializer = Deserializer::new(bytes);
    Value::deserialize(kind, &mut deserializer)
}

/// Deserializes a value of the given kind from the front of a reader, and
/// leaves the reader at the first byte that was not consumed.
pub fn from_reader(reader: &mut &[u8], kind: &Kind) -> (result: Result<Value, DeserializationError>)
    ensures
        match decode(old(reader)@, 0, *kind).result {
            Ok(value) => result is Ok && result->Ok_0@ == value,
            Err(error) => result is Err && result->Err_0@ == error,
        },
        0 <= decode(old(reader)@, 0, *kind).position <= old(reader)@.len(),
        final(reader)@ == old(reader)@.skip(decode(old(reader)@, 0, *kind).position),
{
    let bytes: &[u8] = *reader;
    let mut deserializer = Deserializer::new(bytes);
    let result = Value::deserialize(kind, &mut deserializer);
    proof {
        lemma_decode_within_input(bytes@, 0, *kind);
    }
    *reader = slice_subrange(bytes, deserializer.position, bytes.len());
    result
}

} // verus!
