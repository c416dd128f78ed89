//! Names of the types that are serialized field by field.

use crate::ser::encoding::struct_variant_name;
use vstd::prelude::*;
use vstd::string::StringExecFns;

verus! {

/// The type that a struct serializer is working on.
#[derive(Debug, Clone, Copy, PartialEq, Eq)]
pub enum TypeName {
    /// A struct, with its name.
    Struct(&'static str),
    /// A struct variant, with the names of its type and of the variant.
    StructVariant(&'static str, &'static str),
}

impl TypeName {
    /// The name as failures give it.
    pub open spec fn text(self) -> Seq<char> {
        match self {
            TypeName::Struct(name) => name@,
            TypeName::StructVariant(struct_name, variant) => struct_variant_name(
                struct_name@,
                variant@,
            ),
        }
    }

    /// Writes the name as failures give it.
    pub fn to_string(&self) -> (text: String)
        ensures
            text@ == self.text(),
    {
        match *self {
            TypeName::Struct(name) => String::from_str(name),
            TypeName::StructVariant(struct_name, variant) => String::from_str(
                struct_name,
            ).concat("::").concat(variant),
        }
    }
}

} // verus!
