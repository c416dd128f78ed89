//! Opaque data of a length that is known in advance: the bytes, padded with
//! zeros to whole 32-bit words, without a length in front.

use super::byte_array::ByteArray;
use crate::de::decoding::{decode, decode_u32, element_what, io_failure, unsigned_what, Decoded};
use crate::de::deserializer::sequence_deserializer::SequenceDeserializer;
use crate::de::errors::{DeserializationError, SpecDeserializationError};
use crate::de::Deserializer;
use crate::framing::{be_u32, lemma_u32_bytes_round_trip, pad4, zeros};
use crate::kind::Kind;
use crate::ser::encoding::{encode, lemma_encode_element};
use crate::ser::errors::SerializationError;
use crate::ser::Serializer;
use crate::value::Value;
use core::marker::PhantomData;
use vstd::arithmetic::power2::{lemma2_to64, lemma2_to64_rest};
use vstd::pervasive::unreached;
use vstd::prelude::*;

verus! {

/// The bytes, with zeros up to a multiple of four.
pub open spec fn padded(bytes: Seq<u8>) -> Seq<u8> {
    bytes + zeros(pad4(bytes.len()))
}

/// The number of 32-bit words that hold `length` bytes.
pub open spec fn blocks(length: nat) -> nat {
    (length + 3) / 4
}

/// The number of 32-bit words that hold `length` bytes.
pub fn num_blocks(length: usize) -> (count: usize)
    ensures
        count == blocks(length as nat),
        4 * count == length + pad4(length as nat),
{
    if length % 4 == 0 {
        length / 4
    } else {
        length / 4 + 1
    }
}

/// The byte at `position`, or zero behind the last byte.
fn padded_byte(bytes: &[u8], position: usize, offset: usize) -> (byte: u8)
    requires
        position < bytes@.len(),
        offset < 4,
        position + offset < padded(bytes@).len(),
    ensures
        byte == padded(bytes@)[position + offset],
{
    if offset < bytes.len() - position {
        bytes[position + offset]
    } else {
        0
    }
}

/// Serialize a slice of bytes as opaque data with a known fixed length: as
/// a tuple of 32-bit words that hold four bytes each, the last one padded
/// with zeros.
#[verifier::loop_isolation(false)]
pub fn serialize<'w>(bytes: &[u8], serializer: Serializer<'w>) -> (result: Result<
    Serializer<'w>,
    SerializationError,
>)
    ensures
        result is Ok,
        result->Ok_0.writer@ == old(serializer.writer)@ + padded(bytes@),
        *final(result->Ok_0.writer) == *final(serializer.writer),
{
    let ghost start = serializer.writer@;
    let ghost end = *final(serializer.writer);
    let ghost whole = padded(bytes@);
    let length = bytes.len();
    let num_blocks = num_blocks(length);
    let mut tuple_serializer = match serializer.serialize_tuple(num_blocks) {
        Ok(tuple_serializer) => tuple_serializer,
        Err(error) => {
            return Err(error);
        },
    };
    let mut index: usize = 0;
    proof {
        assert(start + whole.take(0) =~= start);
    }
    while index < num_blocks
        invariant
            index <= num_blocks,
            tuple_serializer.current_index == index,
            tuple_serializer.serializer is Some,
            tuple_serializer.serializer->Some_0.writer@ == start + whole.take(4 * index),
            *final(tuple_serializer.serializer->Some_0.writer) == end,
        decreases num_blocks - index,
    {
        let position = 4 * index;
        let first = padded_byte(bytes, position, 0);
        let second = padded_byte(bytes, position, 1);
        let third = padded_byte(bytes, position, 2);
        let fourth = padded_byte(bytes, position, 3);
        let block: u32 = first as u32 * 0x100_0000 + second as u32 * 0x1_0000 + third as u32
            * 0x100 + fourth as u32;
        let element = Value::UnsignedInteger32(block);
        proof {
            let slot = whole.subrange(position as int, position + 4);
            lemma_u32_bytes_round_trip(slot);
            assert(be_u32(block) == slot);
            assert(encode(element@).bytes == be_u32(block) && encode(element@).error is None) by {
                reveal(encode);
            }
            lemma_encode_element(
                element@,
                index as nat,
                tuple_serializer.kind_name.text(),
            );
            assert(whole.take(4 * index) + slot =~= whole.take(4 * (index + 1)));
            assert(start + whole.take(4 * index) + slot =~= start + (whole.take(4 * index)
                + slot));
        }
        match tuple_serializer.serialize_element(&element) {
            Ok(()) => {},
            Err(error) => {
                return Err(error);
            },
        }
        index = index + 1;
    }
    proof {
        assert(whole.take(4 * num_blocks) =~= whole);
    }
    tuple_serializer.end()
}

/// What deserializing opaque data of a known fixed length does: it reads
/// whole 32-bit words, keeps the bytes and drops the padding. Where a word
/// is cut short, the failure names it, and the source stays behind the
/// words before it.
pub open spec fn decode_fixed(bytes: Seq<u8>, position: int, length: nat) -> Decoded<Seq<u8>> {
    if blocks(length) > u32::MAX {
        Decoded::fail(
            position,
            SpecDeserializationError::TupleTooLong { length: blocks(length) as usize },
        )
    } else if length == 0 {
        Decoded::ok(position, Seq::empty())
    } else if position + 4 * blocks(length) <= bytes.len() {
        Decoded::ok(position + 4 * blocks(length), bytes.subrange(position, position + length))
    } else {
        let read = if position <= bytes.len() {
            (bytes.len() - position) / 4
        } else {
            0
        };
        Decoded::fail(
            position + 4 * read,
            SpecDeserializationError::Failure {
                what: element_what(read as nat, "tuple"@),
                cause: Box::new(io_failure(unsigned_what(32))),
            },
        )
    }
}

/// Deserialize opaque data with a known fixed length into an array of bytes.
pub fn deserialize<'r, T: ByteArray>(deserializer: &mut Deserializer<'r>) -> (result: Result<
    T,
    DeserializationError,
>)
    ensures
        final(deserializer).reader == old(deserializer).reader,
        final(deserializer).position == decode_fixed(
            old(deserializer).reader@,
            old(deserializer).position as int,
            T::length(),
        ).position,
        match decode_fixed(
            old(deserializer).reader@,
            old(deserializer).position as int,
            T::length(),
        ).result {
            Ok(data) => result is Ok && result->Ok_0.bytes() == data,
            Err(error) => result is Err && result->Err_0@ == error,
        },
{
    let length = T::len();
    let num_blocks = num_blocks(length);
    if num_blocks > u32::MAX as usize {
        return Err(DeserializationError::TupleTooLong { length: num_blocks });
    }
    let sequence = deserializer.deserialize_sequence("tuple", num_blocks as u32);
    ByteArrayVisitor::<T>::new().visit_seq(sequence)
}

/// Builds an array of bytes from the 32-bit words of a tuple.
pub struct ByteArrayVisitor<T: ByteArray> {
    _byte_array: PhantomData<T>,
}

/// One of the four bytes of a 32-bit word, the most significant first.
fn block_byte(block: u32, index: usize) -> (byte: u8)
    requires
        index < 4,
    ensures
        byte == be_u32(block)[index as int],
{
    if index == 0 {
        assert((block >> 24u32) & 0xffu32 == block / 0x100_0000u32) by (bit_vector);
        ((block >> 24u32) & 0xffu32) as u8
    } else if index == 1 {
        assert((block >> 16u32) & 0xffu32 == block / 0x1_0000u32 % 0x100u32) by (bit_vector);
        ((block >> 16u32) & 0xffu32) as u8
    } else if index == 2 {
        assert((block >> 8u32) & 0xffu32 == block / 0x100u32 % 0x100u32) by (bit_vector);
        ((block >> 8u32) & 0xffu32) as u8
    } else {
        assert(block & 0xffu32 == block % 0x100u32) by (bit_vector);
        (block & 0xffu32) as u8
    }
}

/// Puts the first `num_bytes` bytes of a 32-bit word into an array, from
/// `start` on, and drops the others.
pub fn decode_partial_block<T: ByteArray>(
    block: u32,
    bytes: &mut T,
    start: usize,
    num_bytes: usize,
)
    requires
        num_bytes <= 4,
        start + num_bytes <= T::length(),
        old(bytes).bytes().len() == T::length(),
    ensures
        final(bytes).bytes() == old(bytes).bytes().subrange(0, start as int) + be_u32(block).take(
            num_bytes as int,
        ) + old(bytes).bytes().subrange(start + num_bytes, T::length() as int),
{
    let ghost before = bytes.bytes();
    let length = T::len();
    let mut index: usize = 0;
    proof {
        assert(before =~= before.subrange(0, start as int) + be_u32(block).take(0)
            + before.subrange(start as int, length as int));
    }
    while index < num_bytes
        invariant
            index <= num_bytes <= 4,
            start + num_bytes <= length == T::length(),
            before.len() == length,
            bytes.bytes() == before.subrange(0, start as int) + be_u32(block).take(index as int)
                + before.subrange(start + index, length as int),
        decreases num_bytes - index,
    {
        let byte = block_byte(block, index);
        bytes.set(start + index, byte);
        proof {
            assert(bytes.bytes() =~= before.subrange(0, start as int) + be_u32(block).take(
                index + 1,
            ) + before.subrange(start + index + 1, length as int));
        }
        index = index + 1;
    }
}

/// Puts the four bytes of a 32-bit word into an array, from `start` on.
pub fn decode_full_block<T: ByteArray>(block: u32, bytes: &mut T, start: usize)
    requires
        start + 4 <= T::length(),
        old(bytes).bytes().len() == T::length(),
    ensures
        final(bytes).bytes() == old(bytes).bytes().subrange(0, start as int) + be_u32(block)
            + old(bytes).bytes().subrange(start + 4, T::length() as int),
{
    decode_partial_block(block, bytes, start, 4);
    proof {
        assert(be_u32(block).take(4) =~= be_u32(block));
    }
}

impl<T: ByteArray> ByteArrayVisitor<T> {
    /// A visitor that builds an array of the type `T`.
    pub fn new() -> Self {
        ByteArrayVisitor { _byte_array: PhantomData }
    }

    /// Reads the next 32-bit word of the tuple.
    fn next_block<'a, 'r, 's>(&self, sequence: &mut SequenceDeserializer<'a, 'r, 's>) -> (result:
        Result<u32, DeserializationError>)
        requires
            old(sequence).current_index < old(sequence).length,
        ensures
            final(sequence).length == old(sequence).length,
            final(sequence).kind_name@ == old(sequence).kind_name@,
            *final(final(sequence).deserializer) == *final(old(sequence).deserializer),
            final(sequence).deserializer.reader == old(sequence).deserializer.reader,
            match decode_u32(
                old(sequence).deserializer.reader@,
                old(sequence).deserializer.position as int,
                unsigned_what(32),
            ).result {
                Ok(block) => {
                    &&& result == Ok::<u32, DeserializationError>(block)
                    &&& final(sequence).current_index == old(sequence).current_index + 1
                    &&& final(sequence).deserializer.position == old(
                        sequence,
                    ).deserializer.position + 4
                },
                Err(cause) => {
                    &&& result is Err
                    &&& result->Err_0@ == (SpecDeserializationError::Failure {
                        what: element_what(
                            old(sequence).current_index as nat,
                            old(sequence).kind_name@,
                        ),
                        cause: Box::new(cause),
                    })
                    &&& final(sequence).current_index == old(sequence).current_index
                    &&& final(sequence).deserializer.position == old(
                        sequence,
                    ).deserializer.position
                },
            },
    {
        proof {
            reveal(decode);
            lemma2_to64();
            lemma2_to64_rest();
        }
        match sequence.next_element_seed(&Kind::UnsignedInteger32) {
            Ok(Some(Value::UnsignedInteger32(block))) => Ok(block),
            Ok(_) => unreached(),
            Err(error) => Err(error),
        }
    }

    /// Reads a 32-bit word and puts its four bytes into the array.
    pub fn visit_full_block<'a, 'r, 's>(
        &self,
        block_index: usize,
        bytes: &mut T,
        sequence: &mut SequenceDeserializer<'a, 'r, 's>,
    ) -> (result: Result<(), DeserializationError>)
        requires
            old(sequence).current_index < old(sequence).length,
            4 * block_index + 4 <= T::length(),
            old(bytes).bytes().len() == T::length(),
        ensures
            final(sequence).length == old(sequence).length,
            final(sequence).kind_name@ == old(sequence).kind_name@,
            *final(final(sequence).deserializer) == *final(old(sequence).deserializer),
            final(sequence).deserializer.reader == old(sequence).deserializer.reader,
            final(bytes).bytes().len() == T::length(),
            match decode_u32(
                old(sequence).deserializer.reader@,
                old(sequence).deserializer.position as int,
                unsigned_what(32),
            ).result {
                Ok(block) => {
                    &&& result is Ok
                    &&& final(sequence).current_index == old(sequence).current_index + 1
                    &&& final(sequence).deserializer.position == old(
                        sequence,
                    ).deserializer.position + 4
                    &&& final(bytes).bytes() == old(bytes).bytes().subrange(0, 4 * block_index)
                        + be_u32(block) + old(bytes).bytes().subrange(
                        4 * block_index + 4,
                        T::length() as int,
                    )
                },
                Err(cause) => {
                    &&& result is Err
                    &&& result->Err_0@ == (SpecDeserializationError::Failure {
                        what: element_what(
                            old(sequence).current_index as nat,
                            old(sequence).kind_name@,
                        ),
                        cause: Box::new(cause),
                    })
                    &&& final(sequence).current_index == old(sequence).current_index
                    &&& final(sequence).deserializer.position == old(
                        sequence,
                    ).deserializer.position
                    &&& final(bytes).bytes() == old(bytes).bytes()
                },
            },
    {
        match self.next_block(sequence) {
            Ok(block) => {
                let length = T::len();
                let start = block_index * 4;
                decode_full_block(block, bytes, start);
                Ok(())
            },
            Err(error) => Err(error),
        }
    }

    /// Reads the last 32-bit word and puts its first `num_bytes` bytes into
    /// the array; the others are padding.
    pub fn visit_partial_block<'a, 'r, 's>(
        &self,
        total_blocks: usize,
        num_bytes: usize,
        bytes: &mut T,
        sequence: &mut SequenceDeserializer<'a, 'r, 's>,
    ) -> (result: Result<(), DeserializationError>)
        requires
            old(sequence).current_index < old(sequence).length,
            total_blocks >= 1,
            num_bytes <= 4,
            4 * (total_blocks - 1) + num_bytes <= T::length(),
            old(bytes).bytes().len() == T::length(),
        ensures
            final(sequence).length == old(sequence).length,
            final(sequence).kind_name@ == old(sequence).kind_name@,
            *final(final(sequence).deserializer) == *final(old(sequence).deserializer),
            final(sequence).deserializer.reader == old(sequence).deserializer.reader,
            final(bytes).bytes().len() == T::length(),
            match decode_u32(
                old(sequence).deserializer.reader@,
                old(sequence).deserializer.position as int,
                unsigned_what(32),
            ).result {
                Ok(block) => {
                    let start = 4 * (total_blocks - 1);
                    &&& result is Ok
                    &&& final(sequence).current_index == old(sequence).current_index + 1
                    &&& final(sequence).deserializer.position == old(
                        sequence,
                    ).deserializer.position + 4
                    &&& final(bytes).bytes() == old(bytes).bytes().subrange(0, start) + be_u32(
                        block,
                    ).take(num_bytes as int) + old(bytes).bytes().subrange(
                        start + num_bytes,
                        T::length() as int,
                    )
                },
                Err(cause) => {
                    &&& result is Err
                    &&& result->Err_0@ == (SpecDeserializationError::Failure {
                        what: element_what(
                            old(sequence).current_index as nat,
                            old(sequence).kind_name@,
                        ),
                        cause: Box::new(cause),
                    })
                    &&& final(sequence).current_index == old(sequence).current_index
                    &&& final(sequence).deserializer.position == old(
                        sequence,
                    ).deserializer.position
                    &&& final(bytes).bytes() == old(bytes).bytes()
                },
            },
    {
        match self.next_block(sequence) {
            Ok(block) => {
                let length = T::len();
                let start = (total_blocks - 1) * 4;
                decode_partial_block(block, bytes, start, num_bytes);
                Ok(())
            },
            Err(error) => Err(error),
        }
    }

    /// Builds the array from the words of a tuple: whole words first, then
    /// the last word, of which the padding is dropped.
    #[verifier::loop_isolation(false)]
    pub fn visit_seq<'a, 'r, 's>(self, sequence: SequenceDeserializer<'a, 'r, 's>) -> (result:
        Result<T, DeserializationError>)
        requires
            sequence.current_index == 0,
            sequence.length == blocks(T::length()),
            sequence.kind_name@ == "tuple"@,
        ensures
            final(sequence.deserializer).reader == old(sequence.deserializer).reader,
            final(sequence.deserializer).position == decode_fixed(
                old(sequence.deserializer).reader@,
                old(sequence.deserializer).position as int,
                T::length(),
            ).position,
            match decode_fixed(
                old(sequence.deserializer).reader@,
                old(sequence.deserializer).position as int,
                T::length(),
            ).result {
                Ok(data) => result is Ok && result->Ok_0.bytes() == data,
                Err(error) => result is Err && result->Err_0@ == error,
            },
    {
        let ghost end = *final(sequence.deserializer);
        let ghost input = sequence.deserializer.reader@;
        let ghost reader = sequence.deserializer.reader;
        let ghost origin = sequence.deserializer.position as int;
        let mut sequence = sequence;
        let mut byte_array = T::default();
        let length = T::len();
        let num_blocks = num_blocks(length);
        if num_blocks == 0 {
            proof {
                assert(byte_array.bytes() =~= Seq::<u8>::empty());
            }
            return Ok(byte_array);
        }
        let mut block_index: usize = 0;
        proof {
            assert(byte_array.bytes().subrange(0, 0) =~= Seq::<u8>::empty());
        }
        while block_index < num_blocks - 1
            invariant
                block_index <= num_blocks - 1,
                sequence.length == num_blocks,
                sequence.kind_name@ == "tuple"@,
                sequence.current_index == block_index,
                sequence.deserializer.reader == reader,
                sequence.deserializer.position == origin + 4 * block_index,
                block_index > 0 ==> origin + 4 * block_index <= input.len(),
                *final(sequence.deserializer) == end,
                byte_array.bytes().len() == length,
                block_index > 0 ==> byte_array.bytes().subrange(0, 4 * block_index)
                    == input.subrange(origin, origin + 4 * block_index),
            decreases num_blocks - 1 - block_index,
        {
            let ghost earlier = byte_array.bytes();
            let ghost position = sequence.deserializer.position as int;
            match self.visit_full_block(block_index, &mut byte_array, &mut sequence) {
                Ok(()) => {
                    proof {
                        let slot = input.subrange(position, position + 4);
                        lemma_u32_bytes_round_trip(slot);
                        let now = byte_array.bytes();
                        assert(now.subrange(0, 4 * (block_index + 1)) =~= earlier.subrange(
                            0,
                            4 * block_index,
                        ) + slot);
                        assert(input.subrange(origin, origin + 4 * (block_index + 1))
                            =~= input.subrange(origin, origin + 4 * block_index) + slot);
                        if block_index == 0 {
                            assert(earlier.subrange(0, 0) =~= input.subrange(origin, origin));
                        }
                    }
                },
                Err(error) => {
                    return Err(error);
                },
            }
            block_index = block_index + 1;
        }
        let bytes_read = (num_blocks - 1) * 4;
        let remaining_bytes = length - bytes_read;
        let ghost earlier = byte_array.bytes();
        let ghost position = sequence.deserializer.position as int;
        match self.visit_partial_block(num_blocks, remaining_bytes, &mut byte_array, &mut sequence) {
            Ok(()) => {
                proof {
                    let slot = input.subrange(position, position + 4);
                    lemma_u32_bytes_round_trip(slot);
                    let now = byte_array.bytes();
                    assert(earlier.subrange(length as int, length as int) =~= Seq::<u8>::empty());
                    if bytes_read == 0 {
                        assert(earlier.subrange(0, 0) =~= Seq::<u8>::empty());
                        assert(now =~= slot.take(remaining_bytes as int));
                        assert(input.subrange(origin, origin + length) =~= slot.take(
                            remaining_bytes as int,
                        ));
                    } else {
                        assert(now =~= input.subrange(origin, origin + bytes_read) + slot.take(
                            remaining_bytes as int,
                        ));
                        assert(input.subrange(origin, origin + length) =~= input.subrange(
                            origin,
                            origin + bytes_read,
                        ) + slot.take(remaining_bytes as int));
                    }
                }
                Ok(byte_array)
            },
            Err(error) => Err(error),
        }
    }
}

} // verus!
