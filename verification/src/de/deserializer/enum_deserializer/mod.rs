//! Deserialization of unions.

pub mod variant_deserializer;

use self::variant_deserializer::VariantDeserializer;
use crate::de::decoding::variant_what;
use crate::de::errors::{DeserializationError, SpecDeserializationError};
use crate::de::Deserializer;
use vstd::prelude::*;
use vstd::string::StringExecFns;

verus! {

/// Deserializer of a union whose discriminant has been read.
pub struct EnumDeserializer<'a, 'r> {
    /// The name of the union.
    pub enum_name: &'static str,
    /// The discriminant that was read.
    pub variant: u32,
    /// The name of the variant that the discriminant selects.
    pub variant_name: &'static str,
    /// The deserializer that reads what the variant holds.
    pub deserializer: &'a mut Deserializer<'r>,
}

/// Wraps the error of a variant in a failure that names the union and the
/// variant.
pub fn deserialize_enum_error(
    enum_name: &str,
    variant_name: &str,
    cause: DeserializationError,
) -> (error: DeserializationError)
    ensures
        error@ == (SpecDeserializationError::Failure {
            what: variant_what(enum_name@, variant_name@),
            cause: Box::new(cause@),
        }),
{
    let what = String::from_str("enum variant ").concat(enum_name).concat("::").concat(
        variant_name,
    );
    DeserializationError::Failure { what, cause: Box::new(cause) }
}

impl<'a, 'r> EnumDeserializer<'a, 'r> {
    /// A deserializer of the named union, for the selected variant.
    pub fn new(
        enum_name: &'static str,
        variant: u32,
        variant_name: &'static str,
        deserializer: &'a mut Deserializer<'r>,
    ) -> (access: Self)
        ensures
            access.enum_name@ == enum_name@,
            access.variant == variant,
            access.variant_name@ == variant_name@,
            *access.deserializer == *old(deserializer),
            *final(access.deserializer) == *final(deserializer),
    {
        EnumDeserializer { enum_name, variant, variant_name, deserializer }
    }

    /// Gives the discriminant, and the deserializer of what the variant
    /// holds.
    pub fn variant_seed(self) -> (selected: (u32, VariantDeserializer<'a, 'r>))
        ensures
            selected.0 == self.variant,
            selected.1.enum_name@ == self.enum_name@,
            selected.1.variant_name@ == self.variant_name@,
            *selected.1.deserializer == *old(self.deserializer),
            *final(selected.1.deserializer) == *final(self.deserializer),
    {
        let variant_deserializer = VariantDeserializer::new(
            self.enum_name,
            self.variant_name,
            self.deserializer,
        );
        (self.variant, variant_deserializer)
    }
}

} // verus!
