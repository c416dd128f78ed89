//! The kinds of values, which tell a deserializer what to expect.

use vstd::prelude::*;

verus! {

/// The name and kind of a field of a struct.
#[derive(Debug, PartialEq, Eq)]
pub struct FieldKind {
    /// The field's name.
    pub name: &'static str,
    /// The kind of the field's value.
    pub kind: Kind,
}

/// What a variant of a union holds besides its discriminant.
#[derive(Debug, PartialEq, Eq)]
pub enum VariantShape {
    /// Nothing.
    Unit,
    /// One unnamed value.
    Newtype(Box<Kind>),
    /// Unnamed values, in order.
    Tuple(Vec<Kind>),
    /// Named fields, in order.
    Struct(Vec<FieldKind>),
}

/// The name and shape of a variant of a union.
#[derive(Debug, PartialEq, Eq)]
pub struct VariantKind {
    /// The variant's name.
    pub name: &'static str,
    /// What the variant holds.
    pub shape: VariantShape,
}

/// The kind of a value.
#[derive(Debug, PartialEq, Eq)]
#[allow(inconsistent_fields)]
pub enum Kind {
    /// A value whose kind the input itself would have to tell.
    Any,
    /// A boolean.
    Bool,
    /// A signed number of 8 bits.
    Integer8,
    /// A signed number of 16 bits.
    Integer16,
    /// A signed number of 32 bits.
    Integer32,
    /// A signed number of 64 bits.
    Integer64,
    /// An unsigned number of 8 bits.
    UnsignedInteger8,
    /// An unsigned number of 16 bits.
    UnsignedInteger16,
    /// An unsigned number of 32 bits.
    UnsignedInteger32,
    /// An unsigned number of 64 bits.
    UnsignedInteger64,
    /// A single-precision number.
    Float,
    /// A double-precision number.
    Double,
    /// A character.
    Char,
    /// A string.
    String,
    /// Opaque data of variable length.
    Bytes,
    /// Optional data of the given kind.
    Optional(Box<Kind>),
    /// The value that holds nothing.
    Unit,
    /// A struct without fields, with its name.
    UnitStruct { name: &'static str },
    /// A struct with one unnamed field of the given kind.
    NewtypeStruct { name: &'static str, kind: Box<Kind> },
    /// A sequence of any length, of elements of the given kind.
    Sequence(Box<Kind>),
    /// A tuple of elements of the given kinds.
    Tuple(Vec<Kind>),
    /// A struct with unnamed fields of the given kinds.
    TupleStruct { name: &'static str, fields: Vec<Kind> },
    /// A map, which the format cannot carry.
    Dictionary,
    /// A struct with the given named fields.
    Struct { name: &'static str, fields: Vec<FieldKind> },
    /// A union, with its variants in the order of their discriminants.
    Enum { name: &'static str, variants: Vec<VariantKind> },
    /// The name of a field or variant.
    Identifier,
    /// A value to skip, whatever its kind.
    IgnoredAny,
}

/// The names of a list of variants, in order.
pub open spec fn variant_names(variants: Seq<VariantKind>) -> Seq<Seq<char>> {
    Seq::new(variants.len(), |i: int| variants[i].name@)
}

} // verus!
