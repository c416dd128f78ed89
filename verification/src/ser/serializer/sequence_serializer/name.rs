//! Names of the types that are serialized element by element.

use crate::ser::encoding::{tuple_struct_name, tuple_variant_name};
use vstd::prelude::*;
use vstd::string::StringExecFns;

verus! {

/// The type that a sequence serializer is working on.
#[derive(Debug, Clone, Copy, PartialEq, Eq)]
pub enum TypeName {
    /// A sequence, which has a length prefix.
    Sequence,
    /// A tuple without a name.
    Tuple,
    /// A tuple struct, with its name.
    TupleStruct(&'static str),
    /// A tuple variant, with the names of its type and of the variant.
    TupleVariant(&'static str, &'static str),
}

impl TypeName {
    /// The name as failures give it.
    pub open spec fn text(self) -> Seq<char> {
        match self {
            TypeName::Sequence => "sequence"@,
            TypeName::Tuple => "tuple"@,
            TypeName::TupleStruct(name) => tuple_struct_name(name@),
            TypeName::TupleVariant(tuple_name, variant) => tuple_variant_name(
                tuple_name@,
                variant@,
            ),
        }
    }

    /// Writes the name as failures give it.
    pub fn to_string(&self) -> (text: String)
        ensures
            text@ == self.text(),
    {
        match *self {
            TypeName::Sequence => String::from_str("sequence"),
            TypeName::Tuple => String::from_str("tuple"),
            TypeName::TupleStruct(name) => String::from_str("tuple struct ").concat(name),
            TypeName::TupleVariant(tuple_name, variant) => String::from_str(
                "tuple variant ",
            ).concat(tuple_name).concat("::").concat(variant),
        }
    }
}

} // verus!
