//! Serialization of structs, field by field.

pub mod name;

use self::name::TypeName;
use crate::ser::encoding::{encode_field, field_what};
use crate::ser::errors::{SerializationError, SpecSerializationError};
use crate::ser::Serializer;
use crate::value::{SpecField, Value};
use vstd::prelude::*;
use vstd::string::StringExecFns;

verus! {

/// Serializer of the fields of a struct or struct variant.
///
/// It is live while it holds the serializer, and consumed once a field has
/// failed: every later call then fails with
/// [`SerializationError::FatalStructState`].
pub struct StructSerializer<'w> {
    /// The type being serialized.
    pub struct_name: TypeName,
    /// The serializer, while no field has failed.
    pub serializer: Option<Serializer<'w>>,
}

/// The error of a struct serializer that is used after it has failed.
pub fn fatal_error(struct_name: &TypeName) -> (error: SerializationError)
    ensures
        error@ == (SpecSerializationError::FatalStructState { name: struct_name.text() }),
{
    let name = struct_name.to_string();
    SerializationError::FatalStructState { name }
}

/// Wraps the error of a field in a failure that names the struct and the
/// field.
pub fn serialization_error(
    struct_name: &TypeName,
    field_name: &str,
    cause: SerializationError,
) -> (error: SerializationError)
    ensures
        error@ == (SpecSerializationError::Failure {
            what: field_what(struct_name.text(), field_name@),
            cause: Box::new(cause@),
        }),
{
    let name = struct_name.to_string();
    let what = String::from_str("struct field ").concat(name.as_str()).concat("::").concat(
        field_name,
    );
    SerializationError::Failure { what, cause: Box::new(cause) }
}

impl<'w> StructSerializer<'w> {
    /// Starts a struct, which has no prefix.
    pub fn start_struct(struct_name: &'static str, serializer: Serializer<'w>) -> (fields: Self)
        ensures
            fields.struct_name == TypeName::Struct(struct_name),
            fields.serializer matches Some(inner) && inner.writer@ == old(serializer.writer)@
                && *final(inner.writer) == *final(serializer.writer),
    {
        StructSerializer { struct_name: TypeName::Struct(struct_name), serializer: Some(serializer) }
    }

    /// Starts the fields of a struct variant, after its discriminant.
    pub fn start_struct_variant(
        struct_name: &'static str,
        variant_name: &'static str,
        serializer: Serializer<'w>,
    ) -> (fields: Self)
        ensures
            fields.struct_name == TypeName::StructVariant(struct_name, variant_name),
            fields.serializer matches Some(inner) && inner.writer@ == old(serializer.writer)@
                && *final(inner.writer) == *final(serializer.writer),
    {
        StructSerializer {
            struct_name: TypeName::StructVariant(struct_name, variant_name),
            serializer: Some(serializer),
        }
    }

    /// Serializes the next field. Where the field fails, the failure names
    /// the struct and the field, and the serializer is consumed.
    pub fn common_serialize_field(&mut self, key: &'static str, value: &Value) -> (result: Result<
        (),
        SerializationError,
    >)
        ensures
            final(self).struct_name == old(self).struct_name,
            match old(self).serializer {
                Some(before) => {
                    let encoding = encode_field(
                        SpecField { name: key@, value: value@ },
                        old(self).struct_name.text(),
                    );
                    match encoding.error {
                        None => {
                            &&& result is Ok
                            &&& final(self).serializer is Some
                            &&& final(self).serializer->Some_0.writer@ == before.writer@
                                + encoding.bytes
                            &&& *final(final(self).serializer->Some_0.writer) == *final(
                                before.writer)
                        },
                        Some(error) => {
                            &&& result is Err
                            &&& result->Err_0@ == error
                            &&& final(self).serializer is None
                            &&& final(before.writer)@ == before.writer@ + encoding.bytes
                        },
                    }
                },
                None => {
                    &&& result is Err
                    &&& result->Err_0@ == (SpecSerializationError::FatalStructState {
                        name: old(self).struct_name.text(),
                    })
                    &&& final(self).serializer is None
                },
            },
        decreases value, 1nat,
    {
        match self.serializer.take() {
            Some(serializer) => match value.serialize(serializer) {
                Ok(serializer) => {
                    self.serializer = Some(serializer);
                    Ok(())
                },
                Err(error) => Err(serialization_error(&self.struct_name, key, error)),
            },
            None => Err(fatal_error(&self.struct_name)),
        }
    }

    /// Ends the struct and gives the serializer back, unless a field has
    /// failed.
    pub fn common_end(self) -> (result: Result<Serializer<'w>, SerializationError>)
        ensures
            match self.serializer {
                Some(before) => {
                    &&& result is Ok
                    &&& result->Ok_0.writer@ == before.writer@
                    &&& *final(result->Ok_0.writer) == *final(before.writer)
                },
                None => {
                    &&& result is Err
                    &&& result->Err_0@ == (SpecSerializationError::FatalStructState {
                        name: self.struct_name.text(),
                    })
                },
            },
    {
        match self.serializer {
            Some(serializer) => Ok(serializer),
            None => Err(fatal_error(&self.struct_name)),
        }
    }

    /// Serializes the next field of a struct or struct variant.
    pub fn serialize_field(&mut self, key: &'static str, value: &Value) -> (result: Result<
        (),
        SerializationError,
    >)
        ensures
            final(self).struct_name == old(self).struct_name,
            match old(self).serializer {
                Some(before) => {
                    let encoding = encode_field(
                        SpecField { name: key@, value: value@ },
                        old(self).struct_name.text(),
                    );
                    match encoding.error {
                        None => {
                            &&& result is Ok
                            &&& final(self).serializer is Some
                            &&& final(self).serializer->Some_0.writer@ == before.writer@
                                + encoding.bytes
                            &&& *final(final(self).serializer->Some_0.writer) == *final(
                                before.writer)
                        },
                        Some(error) => {
                            &&& result is Err
                            &&& result->Err_0@ == error
                            &&& final(self).serializer is None
                            &&& final(before.writer)@ == before.writer@ + encoding.bytes
                        },
                    }
                },
                None => {
                    &&& result is Err
                    &&& result->Err_0@ == (SpecSerializationError::FatalStructState {
                        name: old(self).struct_name.text(),
                    })
                    &&& final(self).serializer is None
                },
            },
        decreases value, 2nat,
    {
        self.common_serialize_field(key, value)
    }

    /// Ends the struct and gives the serializer back, unless a field has
    /// failed.
    pub fn end(self) -> (result: Result<Serializer<'w>, SerializationError>)
        ensures
            match self.serializer {
                Some(before) => {
                    &&& result is Ok
                    &&& result->Ok_0.writer@ == before.writer@
                    &&& *final(result->Ok_0.writer) == *final(before.writer)
                },
                None => {
                    &&& result is Err
                    &&& result->Err_0@ == (SpecSerializationError::FatalStructState {
                        name: self.struct_name.text(),
                    })
                },
            },
    {
        self.common_end()
    }
}

} // verus!
