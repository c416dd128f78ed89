//! Deserialization of sequences and tuples, element by element.

use crate::de::decoding::{decode, element_what};
use crate::de::errors::{DeserializationError, SpecDeserializationError};
use crate::de::Deserializer;
use crate::kind::Kind;
use crate::text::decimal;
use crate::value::Value;
use vstd::prelude::*;
use vstd::string::StringExecFns;

verus! {

/// Deserializer of the elements of a sequence, tuple or tuple struct: it
/// yields as many elements as its length says, then none.
pub struct SequenceDeserializer<'a, 'r, 's> {
    /// The number of elements.
    pub length: u32,
    /// The name of the type being deserialized.
    pub kind_name: &'s str,
    /// The number of elements deserialized so far.
    pub current_index: u32,
    /// The deserializer that reads the elements.
    pub deserializer: &'a mut Deserializer<'r>,
}

/// Wraps the error of an element in a failure that names its index and the
/// type.
pub fn deserialize_error(kind_name: &str, index: u32, cause: DeserializationError) -> (error:
    DeserializationError)
    ensures
        error@ == (SpecDeserializationError::Failure {
            what: element_what(index as nat, kind_name@),
            cause: Box::new(cause@),
        }),
{
    let number = decimal(index as u64);
    let what = String::from_str("element ").concat(number.as_str()).concat(" of type ").concat(
        kind_name,
    );
    DeserializationError::Failure { what, cause: Box::new(cause) }
}

impl<'a, 'r, 's> SequenceDeserializer<'a, 'r, 's> {
    /// A deserializer of `length` elements, none of them read yet.
    pub fn new(length: u32, kind_name: &'s str, deserializer: &'a mut Deserializer<'r>) -> (sequence:
        Self)
        ensures
            sequence.length == length,
            sequence.kind_name@ == kind_name@,
            sequence.current_index == 0,
            *sequence.deserializer == *old(deserializer),
            *final(sequence.deserializer) == *final(deserializer),
    {
        SequenceDeserializer { length, kind_name, current_index: 0, deserializer }
    }

    /// Deserializes the next element, of the kind that `seed` gives, or
    /// tells that none is left. Where the element fails, the failure names
    /// its index and the type.
    pub fn next_element_seed(&mut self, seed: &Kind) -> (result: Result<
        Option<Value>,
        DeserializationError,
    >)
        ensures
            final(self).length == old(self).length,
            final(self).kind_name@ == old(self).kind_name@,
            *final(final(self).deserializer) == *final(old(self).deserializer),
            final(self).deserializer.reader == old(self).deserializer.reader,
            if old(self).current_index < old(self).length {
                let next = decode(
                    old(self).deserializer.reader@,
                    old(self).deserializer.position as int,
                    *seed,
                );
                &&& final(self).deserializer.position == next.position
                &&& match next.result {
                    Ok(value) => {
                        &&& result is Ok
                        &&& result->Ok_0 is Some
                        &&& result->Ok_0->Some_0@ == value
                        &&& final(self).current_index == old(self).current_index + 1
                    },
                    Err(cause) => {
                        &&& result is Err
                        &&& result->Err_0@ == (SpecDeserializationError::Failure {
                            what: element_what(
                                old(self).current_index as nat,
                                old(self).kind_name@,
                            ),
                            cause: Box::new(cause),
                        })
                        &&& final(self).current_index == old(self).current_index
                    },
                }
            } else {
                &&& result is Ok
                &&& result->Ok_0 is None
                &&& final(self).current_index == old(self).current_index
                &&& final(self).deserializer.position == old(self).deserializer.position
            },
        decreases seed, 1nat,
    {
        if self.current_index < self.length {
            match Value::deserialize(seed, &mut *self.deserializer) {
                Ok(value) => {
                    self.current_index = self.current_index + 1;
                    Ok(Some(value))
                },
                Err(error) => Err(deserialize_error(self.kind_name, self.current_index, error)),
            }
        } else {
            Ok(None)
        }
    }

    /// The number of elements.
    pub fn size_hint(&self) -> (hint: Option<usize>)
        ensures
            hint == Some(self.length as usize),
    {
        Some(self.length as usize)
    }
}

} // verus!
