//! Opaque data: bytes that are carried as they are, four to a 32-bit word,
//! in place of one word for each byte.

pub mod byte_array;
pub mod fixed_length;

use crate::de::decoding::decode_opaque;
use crate::de::errors::DeserializationError;
use crate::de::Deserializer;
use crate::ser::encoding::encode_opaque;
use crate::ser::errors::SerializationError;
use crate::ser::Serializer;
use vstd::prelude::*;
use vstd::std_specs::convert::FromSpecImpl;

verus! {

/// Opaque data of variable length: a container of bytes that grows, and
/// that is serialized as a length and the bytes, padded to a multiple of
/// four, in place of one 32-bit word for each byte.
#[derive(Debug, Clone, PartialEq, Eq)]
pub struct VariableLengthOpaqueData {
    /// The bytes.
    pub data: Vec<u8>,
}

impl View for VariableLengthOpaqueData {
    type V = Seq<u8>;

    open spec fn view(&self) -> Seq<u8> {
        self.data@
    }
}

impl From<Vec<u8>> for VariableLengthOpaqueData {
    fn from(data: Vec<u8>) -> (opaque: Self) {
        VariableLengthOpaqueData { data }
    }
}

impl FromSpecImpl<Vec<u8>> for VariableLengthOpaqueData {
    open spec fn obeys_from_spec() -> bool {
        true
    }

    open spec fn from_spec(data: Vec<u8>) -> Self {
        VariableLengthOpaqueData { data }
    }
}

impl From<VariableLengthOpaqueData> for Vec<u8> {
    fn from(opaque: VariableLengthOpaqueData) -> (data: Self) {
        opaque.data
    }
}

impl FromSpecImpl<VariableLengthOpaqueData> for Vec<u8> {
    open spec fn obeys_from_spec() -> bool {
        true
    }

    open spec fn from_spec(opaque: VariableLengthOpaqueData) -> Self {
        opaque.data
    }
}

impl VariableLengthOpaqueData {
    /// The number of bytes.
    pub fn len(&self) -> (length: usize)
        ensures
            length == self@.len(),
    {
        self.data.len()
    }

    /// Whether there are no bytes.
    pub fn is_empty(&self) -> (empty: bool)
        ensures
            empty == (self@.len() == 0),
    {
        self.data.len() == 0
    }

    /// Adds a byte at the end.
    pub fn push(&mut self, byte: u8)
        ensures
            final(self)@ == old(self)@.push(byte),
    {
        self.data.push(byte);
    }

    /// The bytes, as a slice.
    pub fn as_slice(&self) -> (bytes: &[u8])
        ensures
            bytes@ == self@,
    {
        self.data.as_slice()
    }

    /// Serializes the bytes as opaque data of variable length.
    pub fn serialize<'w>(&self, serializer: Serializer<'w>) -> (result: Result<
        Serializer<'w>,
        SerializationError,
    >)
        ensures
            Serializer::outcome(old(serializer.writer)@, result, encode_opaque(self@)),
            result matches Ok(after) ==> *final(after.writer) == *final(serializer.writer),
            result is Err ==> final(serializer.writer)@ == old(serializer.writer)@,
    {
        serializer.serialize_bytes(self.data.as_slice())
    }

    /// Deserializes opaque data of variable length.
    pub fn deserialize<'r>(deserializer: &mut Deserializer<'r>) -> (result: Result<
        Self,
        DeserializationError,
    >)
        ensures
            Deserializer::read_view(
                *old(deserializer),
                *final(deserializer),
                result,
                decode_opaque(
                    old(deserializer).reader@,
                    old(deserializer).position as int,
                    "opaque"@,
                ),
            ),
    {
        match deserializer.deserialize_byte_buf() {
            Ok(data) => Ok(VariableLengthOpaqueData { data }),
            Err(error) => Err(error),
        }
    }
}

} // verus!
