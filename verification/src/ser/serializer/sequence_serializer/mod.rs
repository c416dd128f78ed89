//! Serialization of sequences and tuples, element by element.

pub mod name;

use self::name::TypeName;
use crate::ser::encoding::{element_what, encode_element, encode_length};
use crate::ser::errors::{SerializationError, SpecSerializationError};
use crate::ser::Serializer;
use crate::text::decimal;
use crate::value::Value;
use vstd::prelude::*;
use vstd::string::StringExecFns;

verus! {

/// Serializer of the elements of a sequence, tuple, tuple struct or tuple
/// variant.
///
/// It is live while it holds the serializer, and consumed once an element
/// has failed: every later call then fails with
/// [`SerializationError::FatalSequenceState`].
pub struct SequenceSerializer<'w> {
    /// The type being serialized.
    pub kind_name: TypeName,
    /// The serializer, while no element has failed.
    pub serializer: Option<Serializer<'w>>,
    /// The number of elements serialized so far.
    pub current_index: usize,
}

/// The error of a sequence serializer that is used after it has failed.
pub fn fatal_error(kind_name: &TypeName) -> (error: SerializationError)
    ensures
        error@ == (SpecSerializationError::FatalSequenceState { name: kind_name.text() }),
{
    let name = kind_name.to_string();
    SerializationError::FatalSequenceState { name }
}

impl<'w> SequenceSerializer<'w> {
    /// A live serializer of elements of the given type, with no element
    /// serialized yet.
    pub fn new(kind_name: TypeName, serializer: Serializer<'w>) -> (sequence: Self)
        ensures
            sequence.kind_name == kind_name,
            sequence.current_index == 0,
            sequence.serializer matches Some(inner) && inner.writer@ == old(serializer.writer)@
                && *final(inner.writer) == *final(serializer.writer),
    {
        SequenceSerializer { kind_name, serializer: Some(serializer), current_index: 0 }
    }

    /// Starts a sequence: writes its length, which must be known and fit in
    /// 32 bits.
    pub fn start_sequence(length: Option<usize>, serializer: Serializer<'w>) -> (result: Result<
        Self,
        SerializationError,
    >)
        ensures
            match length {
                Some(length) => match encode_length(length as nat).error {
                    None => {
                        &&& result is Ok
                        &&& result->Ok_0.kind_name == TypeName::Sequence
                        &&& result->Ok_0.current_index == 0
                        &&& result->Ok_0.serializer is Some
                        &&& result->Ok_0.serializer->Some_0.writer@ == old(serializer.writer)@
                            + encode_length(length as nat).bytes
                        &&& *final(result->Ok_0.serializer->Some_0.writer) == *final(
                            serializer.writer)
                    },
                    Some(error) => {
                        &&& result is Err
                        &&& result->Err_0@ == error
                        &&& final(serializer.writer)@ == old(serializer.writer)@
                    },
                },
                None => {
                    &&& result is Err
                    &&& result->Err_0@ == SpecSerializationError::SequenceUnknownLength
                    &&& final(serializer.writer)@ == old(serializer.writer)@
                },
            },
    {
        match length {
            Some(length) => match Self::serialize_length(length, serializer) {
                Ok(serializer) => Ok(SequenceSerializer::new(TypeName::Sequence, serializer)),
                Err(error) => Err(error),
            },
            None => Err(SerializationError::SequenceUnknownLength),
        }
    }

    /// Starts a tuple, which has no length prefix.
    pub fn start_tuple(serializer: Serializer<'w>) -> (sequence: Self)
        ensures
            sequence.kind_name == TypeName::Tuple,
            sequence.current_index == 0,
            sequence.serializer matches Some(inner) && inner.writer@ == old(serializer.writer)@
                && *final(inner.writer) == *final(serializer.writer),
    {
        SequenceSerializer::new(TypeName::Tuple, serializer)
    }

    /// Starts a tuple struct, which has no length prefix.
    pub fn start_tuple_struct(name: &'static str, serializer: Serializer<'w>) -> (sequence: Self)
        ensures
            sequence.kind_name == TypeName::TupleStruct(name),
            sequence.current_index == 0,
            sequence.serializer matches Some(inner) && inner.writer@ == old(serializer.writer)@
                && *final(inner.writer) == *final(serializer.writer),
    {
        SequenceSerializer::new(TypeName::TupleStruct(name), serializer)
    }

    /// Starts the fields of a tuple variant, after its discriminant.
    pub fn start_tuple_variant(
        tuple_name: &'static str,
        variant_name: &'static str,
        serializer: Serializer<'w>,
    ) -> (sequence: Self)
        ensures
            sequence.kind_name == TypeName::TupleVariant(tuple_name, variant_name),
            sequence.current_index == 0,
            sequence.serializer matches Some(inner) && inner.writer@ == old(serializer.writer)@
                && *final(inner.writer) == *final(serializer.writer),
    {
        SequenceSerializer::new(TypeName::TupleVariant(tuple_name, variant_name), serializer)
    }

    /// Writes the length of a sequence, unless 32 bits cannot hold it.
    pub fn serialize_length(length: usize, serializer: Serializer<'w>) -> (result: Result<
        Serializer<'w>,
        SerializationError,
    >)
        ensures
            Serializer::outcome(old(serializer.writer)@, result, encode_length(length as nat)),
            result matches Ok(after) ==> *final(after.writer) == *final(serializer.writer),
            result is Err ==> final(serializer.writer)@ == old(serializer.writer)@,
    {
        match Self::ensure_length_is_valid(length) {
            Ok(()) => serializer.serialize_u32(length as u32),
            Err(error) => Err(error),
        }
    }

    /// Tells whether 32 bits can hold a sequence's length.
    pub fn ensure_length_is_valid(length: usize) -> (result: Result<(), SerializationError>)
        ensures
            length <= u32::MAX ==> result is Ok,
            length > u32::MAX ==> result is Err && result->Err_0@
                == (SpecSerializationError::SequenceTooLong { length }),
    {
        let max_length = u32::MAX as usize;
        if length <= max_length {
            Ok(())
        } else {
            Err(SerializationError::SequenceTooLong { length })
        }
    }

    /// Wraps the error of the element at the current index in a failure
    /// that names the index and the type.
    pub fn failure(&self, error: SerializationError) -> (wrapped: SerializationError)
        ensures
            wrapped@ == (SpecSerializationError::Failure {
                what: element_what(self.current_index as nat, self.kind_name.text()),
                cause: Box::new(error@),
            }),
    {
        let index = decimal(self.current_index as u64);
        let name = self.kind_name.to_string();
        let what = String::from_str("element ").concat(index.as_str()).concat(
            " of the type ",
        ).concat(name.as_str());
        SerializationError::Failure { what, cause: Box::new(error) }
    }

    /// Serializes the next element. Where the element fails, the failure
    /// names its index and the type, and the serializer is consumed.
    pub fn common_serialize_element(&mut self, value: &Value) -> (result: Result<
        (),
        SerializationError,
    >)
        requires
            old(self).current_index < usize::MAX,
        ensures
            final(self).kind_name == old(self).kind_name,
            match old(self).serializer {
                Some(before) => {
                    let encoding = encode_element(
                        value@,
                        old(self).current_index as nat,
                        old(self).kind_name.text(),
                    );
                    match encoding.error {
                        None => {
                            &&& result is Ok
                            &&& final(self).current_index == old(self).current_index + 1
                            &&& final(self).serializer is Some
                            &&& final(self).serializer->Some_0.writer@ == before.writer@
                                + encoding.bytes
                            &&& *final(final(self).serializer->Some_0.writer) == *final(
                                before.writer)
                        },
                        Some(error) => {
                            &&& result is Err
                            &&& result->Err_0@ == error
                            &&& final(self).current_index == old(self).current_index
                            &&& final(self).serializer is None
                            &&& final(before.writer)@ == before.writer@ + encoding.bytes
                        },
                    }
                },
                None => {
                    &&& result is Err
                    &&& result->Err_0@ == (SpecSerializationError::FatalSequenceState {
                        name: old(self).kind_name.text(),
                    })
                    &&& final(self).current_index == old(self).current_index
                    &&& final(self).serializer is None
                },
            },
        decreases value, 1nat,
    {
        match self.serializer.take() {
            Some(serializer) => match value.serialize(serializer) {
                Ok(serializer) => {
                    self.current_index = self.current_index + 1;
                    self.serializer = Some(serializer);
                    Ok(())
                },
                Err(error) => Err(self.failure(error)),
            },
            None => Err(fatal_error(&self.kind_name)),
        }
    }

    /// Ends the sequence and gives the serializer back, unless an element
    /// has failed.
    pub fn common_end(self) -> (result: Result<Serializer<'w>, SerializationError>)
        ensures
            match self.serializer {
                Some(before) => {
                    &&& result is Ok
                    &&& result->Ok_0.writer@ == before.writer@
                    &&& *final(result->Ok_0.writer) == *final(before.writer)
                },
                None => {
                    &&& result is Err
                    &&& result->Err_0@ == (SpecSerializationError::FatalSequenceState {
                        name: self.kind_name.text(),
                    })
                },
            },
    {
        match self.serializer {
            Some(serializer) => Ok(serializer),
            None => Err(fatal_error(&self.kind_name)),
        }
    }

    /// Serializes the next element of a sequence or tuple.
    pub fn serialize_element(&mut self, value: &Value) -> (result: Result<
        (),
        SerializationError,
    >)
        requires
            old(self).current_index < usize::MAX,
        ensures
            final(self).kind_name == old(self).kind_name,
            match old(self).serializer {
                Some(before) => {
                    let encoding = encode_element(
                        value@,
                        old(self).current_index as nat,
                        old(self).kind_name.text(),
                    );
                    match encoding.error {
                        None => {
                            &&& result is Ok
                            &&& final(self).current_index == old(self).current_index + 1
                            &&& final(self).serializer is Some
                            &&& final(self).serializer->Some_0.writer@ == before.writer@
                                + encoding.bytes
                            &&& *final(final(self).serializer->Some_0.writer) == *final(
                                before.writer)
                        },
                        Some(error) => {
                            &&& result is Err
                            &&& result->Err_0@ == error
                            &&& final(self).current_index == old(self).current_index
                            &&& final(self).serializer is None
                            &&& final(before.writer)@ == before.writer@ + encoding.bytes
                        },
                    }
                },
                None => {
                    &&& result is Err
                    &&& result->Err_0@ == (SpecSerializationError::FatalSequenceState {
                        name: old(self).kind_name.text(),
                    })
                    &&& final(self).current_index == old(self).current_index
                    &&& final(self).serializer is None
                },
            },
        decreases value, 2nat,
    {
        self.common_serialize_element(value)
    }

    /// Serializes the next field of a tuple struct or tuple variant.
    pub fn serialize_field(&mut self, value: &Value) -> (result: Result<
        (),
        SerializationError,
    >)
        requires
            old(self).current_index < usize::MAX,
        ensures
            final(self).kind_name == old(self).kind_name,
            match old(self).serializer {
                Some(before) => {
                    let encoding = encode_element(
                        value@,
                        old(self).current_index as nat,
                        old(self).kind_name.text(),
                    );
                    match encoding.error {
                        None => {
                            &&& result is Ok
                            &&& final(self).current_index == old(self).current_index + 1
                            &&& final(self).serializer is Some
                            &&& final(self).serializer->Some_0.writer@ == before.writer@
                                + encoding.bytes
                            &&& *final(final(self).serializer->Some_0.writer) == *final(
                                before.writer)
                        },
                        Some(error) => {
                            &&& result is Err
                            &&& result->Err_0@ == error
                            &&& final(self).current_index == old(self).current_index
                            &&& final(self).serializer is None
                            &&& final(before.writer)@ == before.writer@ + encoding.bytes
                        },
                    }
                },
                None => {
                    &&& result is Err
                    &&& result->Err_0@ == (SpecSerializationError::FatalSequenceState {
                        name: old(self).kind_name.text(),
                    })
                    &&& final(self).current_index == old(self).current_index
                    &&& final(self).serializer is None
                },
            },
        decreases value, 2nat,
    {
        self.common_serialize_element(value)
    }

    /// Ends the sequence or tuple and gives the serializer back, unless an
    /// element has failed.
    pub fn end(self) -> (result: Result<Serializer<'w>, SerializationError>)
        ensures
            match self.serializer {
                Some(before) => {
                    &&& result is Ok
                    &&& result->Ok_0.writer@ == before.writer@
                    &&& *final(result->Ok_0.writer) == *final(before.writer)
                },
                None => {
                    &&& result is Err
                    &&& result->Err_0@ == (SpecSerializationError::FatalSequenceState {
                        name: self.kind_name.text(),
                    })
                },
            },
    {
        self.common_end()
    }
}

} // verus!
