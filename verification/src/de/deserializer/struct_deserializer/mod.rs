//! Deserialization of structs, field by field.

use crate::de::decoding::{decode, field_what};
use crate::de::errors::{DeserializationError, SpecDeserializationError};
use crate::de::Deserializer;
use crate::kind::{FieldKind, Kind};
use crate::value::Value;
use vstd::prelude::*;
use vstd::string::StringExecFns;

verus! {

/// Deserializer of the fields of a struct: it yields as many values as the
/// struct has fields, then none.
pub struct StructDeserializer<'a, 'r> {
    /// The name of the struct.
    pub name: &'static str,
    /// The fields of the struct.
    pub fields: &'a Vec<FieldKind>,
    /// The deserializer that reads the fields.
    pub deserializer: &'a mut Deserializer<'r>,
    /// The number of fields deserialized so far.
    pub current_field: usize,
}

/// Wraps the error of a field in a failure that names the struct and the
/// field.
pub fn deserialize_error(struct_name: &str, field_name: &str, cause: DeserializationError) -> (error:
    DeserializationError)
    ensures
        error@ == (SpecDeserializationError::Failure {
            what: field_what(struct_name@, field_name@),
            cause: Box::new(cause@),
        }),
{
    let what = String::from_str("struct field ").concat(struct_name).concat("::").concat(
        field_name,
    );
    DeserializationError::Failure { what, cause: Box::new(cause) }
}

impl<'a, 'r> StructDeserializer<'a, 'r> {
    /// A deserializer of the given fields, none of them read yet.
    pub fn new(
        name: &'static str,
        fields: &'a Vec<FieldKind>,
        deserializer: &'a mut Deserializer<'r>,
    ) -> (access: Self)
        ensures
            access.name@ == name@,
            access.fields == fields,
            access.current_field == 0,
            *access.deserializer == *old(deserializer),
            *final(access.deserializer) == *final(deserializer),
    {
        StructDeserializer { name, fields, deserializer, current_field: 0 }
    }

    /// Deserializes the value of the next field, of the kind that `seed`
    /// gives, or tells that none is left. Where the value fails, the failure
    /// names the struct and the field.
    pub fn next_element_seed(&mut self, seed: &Kind) -> (result: Result<
        Option<Value>,
        DeserializationError,
    >)
        ensures
            final(self).name@ == old(self).name@,
            final(self).fields == old(self).fields,
            *final(final(self).deserializer) == *final(old(self).deserializer),
            final(self).deserializer.reader == old(self).deserializer.reader,
            if old(self).current_field < old(self).fields@.len() {
                let next = decode(
                    old(self).deserializer.reader@,
                    old(self).deserializer.position as int,
                    *seed,
                );
                &&& final(self).deserializer.position == next.position
                &&& match next.result {
                    Ok(value) => {
                        &&& result is Ok
                        &&& result->Ok_0 is Some
                        &&& result->Ok_0->Some_0@ == value
                        &&& final(self).current_field == old(self).current_field + 1
                    },
                    Err(cause) => {
                        &&& result is Err
                        &&& result->Err_0@ == (SpecDeserializationError::Failure {
                            what: field_what(
                                old(self).name@,
                                old(self).fields@[old(self).current_field as int].name@,
                            ),
                            cause: Box::new(cause),
                        })
                        &&& final(self).current_field == old(self).current_field
                    },
                }
            } else {
                &&& result is Ok
                &&& result->Ok_0 is None
                &&& final(self).current_field == old(self).current_field
                &&& final(self).deserializer.position == old(self).deserializer.position
            },
        decreases seed, 1nat,
    {
        if self.current_field < self.fields.len() {
            match Value::deserialize(seed, &mut *self.deserializer) {
                Ok(value) => {
                    self.current_field = self.current_field + 1;
                    Ok(Some(value))
                },
                Err(error) => {
                    let struct_name = self.name;
                    let field_name = self.fields[self.current_field].name;
                    Err(deserialize_error(struct_name, field_name, error))
                },
            }
        } else {
            Ok(None)
        }
    }

    /// The number of fields.
    pub fn size_hint(&self) -> (hint: Option<usize>)
        ensures
            hint == Some(self.fields@.len() as usize),
    {
        Some(self.fields.len())
    }
}

} // verus!
