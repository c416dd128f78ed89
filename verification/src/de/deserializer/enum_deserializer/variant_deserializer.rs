//! Deserialization of what a variant of a union holds.

use super::deserialize_enum_error;
use crate::de::decoding::{decode, decode_fields, decode_tuple, variant_what};
use crate::de::errors::DeserializationError;
use crate::de::Deserializer;
use crate::kind::{FieldKind, Kind};
use crate::value::{Field, Value};
use vstd::prelude::*;

verus! {

/// Deserializer of what the selected variant of a union holds.
pub struct VariantDeserializer<'a, 'r> {
    /// The name of the union.
    pub enum_name: &'static str,
    /// The name of the variant.
    pub variant_name: &'static str,
    /// The deserializer that reads what the variant holds.
    pub deserializer: &'a mut Deserializer<'r>,
}

impl<'a, 'r> VariantDeserializer<'a, 'r> {
    /// A deserializer of the named variant of the named union.
    pub fn new(
        enum_name: &'static str,
        variant_name: &'static str,
        deserializer: &'a mut Deserializer<'r>,
    ) -> (access: Self)
        ensures
            access.enum_name@ == enum_name@,
            access.variant_name@ == variant_name@,
            *access.deserializer == *old(deserializer),
            *final(access.deserializer) == *final(deserializer),
    {
        VariantDeserializer { enum_name, variant_name, deserializer }
    }

    /// A variant that holds nothing: reads nothing.
    pub fn unit_variant(self) -> (result: Result<(), DeserializationError>)
        ensures
            result is Ok,
            *final(self.deserializer) == *old(self.deserializer),
    {
        Ok(())
    }

    /// A variant that holds one unnamed value, of the kind that `seed` gives.
    pub fn newtype_variant_seed(self, seed: &Kind) -> (result: Result<Value, DeserializationError>)
        ensures
            Deserializer::read_view(
                *old(self.deserializer),
                *final(self.deserializer),
                result,
                decode(
                    old(self.deserializer).reader@,
                    old(self.deserializer).position as int,
                    *seed,
                ).within(variant_what(self.enum_name@, self.variant_name@)),
            ),
        decreases seed, 2nat,
    {
        match Value::deserialize(seed, &mut *self.deserializer) {
            Ok(value) => Ok(value),
            Err(error) => Err(deserialize_enum_error(self.enum_name, self.variant_name, error)),
        }
    }

    /// A variant that holds unnamed values of the given kinds.
    pub fn tuple_variant(self, elements: &Vec<Kind>) -> (result: Result<
        Vec<Value>,
        DeserializationError,
    >)
        ensures
            Deserializer::read_values(
                *old(self.deserializer),
                *final(self.deserializer),
                result,
                decode_tuple(
                    old(self.deserializer).reader@,
                    old(self.deserializer).position as int,
                    *elements,
                    "tuple"@,
                ).within(variant_what(self.enum_name@, self.variant_name@)),
            ),
        decreases elements, 2nat,
    {
        match self.deserializer.deserialize_tuple(elements) {
            Ok(values) => Ok(values),
            Err(error) => Err(deserialize_enum_error(self.enum_name, self.variant_name, error)),
        }
    }

    /// A variant that holds named fields of the given kinds.
    pub fn struct_variant(self, fields: &Vec<FieldKind>) -> (result: Result<
        Vec<Field>,
        DeserializationError,
    >)
        ensures
            Deserializer::read_fields(
                *old(self.deserializer),
                *final(self.deserializer),
                result,
                decode_fields(
                    old(self.deserializer).reader@,
                    old(self.deserializer).position as int,
                    *fields,
                    fields@.len(),
                    self.variant_name@,
                ).within(variant_what(self.enum_name@, self.variant_name@)),
            ),
        decreases fields, 2nat,
    {
        match self.deserializer.deserialize_struct(self.variant_name, fields) {
            Ok(values) => Ok(values),
            Err(error) => Err(deserialize_enum_error(self.enum_name, self.variant_name, error)),
        }
    }
}

} // verus!
