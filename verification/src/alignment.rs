//! Alignment: every encoding takes a multiple of four bytes, and the
//! primitives take exactly four or eight.

use crate::framing::{lemma_padded_length_aligned, pad4};
use crate::ser::encoding::{
    encode, encode_elements, encode_fields, encode_opaque, lemma_encode_bytes,
    lemma_encode_elements_step, lemma_encode_fields_step, lemma_encode_newtype_struct,
    lemma_encode_newtype_variant, lemma_encode_optional, lemma_encode_sequence,
    lemma_encode_string, lemma_encode_struct, lemma_encode_struct_variant, lemma_encode_tuple,
    lemma_encode_tuple_struct, lemma_encode_tuple_variant,
};
use crate::value::{SpecField, SpecValue};
use vstd::prelude::*;
use vstd::utf8::encode_utf8;

verus! {

/// Whether a value is a boolean, a number of at most 32 bits, a
/// single-precision number or a character.
pub open spec fn is_word(value: SpecValue) -> bool {
    ||| value is Bool
    ||| value is Integer8
    ||| value is Integer16
    ||| value is Integer32
    ||| value is UnsignedInteger8
    ||| value is UnsignedInteger16
    ||| value is UnsignedInteger32
    ||| value is Float
    ||| value is Char
}

/// Whether a value is a number of 64 bits or a double-precision number.
pub open spec fn is_double_word(value: SpecValue) -> bool {
    ||| value is Integer64
    ||| value is UnsignedInteger64
    ||| value is Double
}

/// Width of the primitives: a boolean, a number of at most 32 bits, a
/// single-precision number and a character take exactly four bytes; a
/// number of 64 bits and a double-precision number take exactly eight. None
/// of them fails.
pub proof fn lemma_primitive_width(value: SpecValue)
    ensures
        is_word(value) ==> encode(value).error is None && encode(value).bytes.len() == 4,
        is_double_word(value) ==> encode(value).error is None && encode(value).bytes.len() == 8,
{
    reveal(encode);
}

/// The elements of a sequence or tuple take a multiple of four bytes.
pub proof fn lemma_elements_aligned(items: Seq<SpecValue>, count: nat, kind_name: Seq<char>)
    ensures
        encode_elements(items, count, kind_name).bytes.len() % 4 == 0,
    decreases items, count,
{
    if 0 < count <= items.len() {
        lemma_encode_elements_step(items, count, kind_name);
        lemma_elements_aligned(items, (count - 1) as nat, kind_name);
        lemma_encoding_aligned(items[count - 1]);
    }
}

/// The fields of a struct take a multiple of four bytes.
pub proof fn lemma_fields_aligned(fields: Seq<SpecField>, count: nat, struct_name: Seq<char>)
    ensures
        encode_fields(fields, count, struct_name).bytes.len() % 4 == 0,
    decreases fields, count,
{
    if 0 < count <= fields.len() {
        lemma_encode_fields_step(fields, count, struct_name);
        lemma_fields_aligned(fields, (count - 1) as nat, struct_name);
        lemma_encoding_aligned(fields[count - 1].value);
    }
}

/// A value without parts takes a multiple of four bytes.
proof fn lemma_aligned_plain(value: SpecValue)
    requires
        !(value is String),
        !(value is Bytes),
        !(value is Optional && value->Optional_0 is Some),
        !(value is NewtypeStruct),
        !(value is NewtypeVariant),
        !(value is Sequence),
        !(value is Tuple),
        !(value is TupleStruct),
        !(value is TupleVariant),
        !(value is Struct),
        !(value is StructVariant),
    ensures
        encode(value).bytes.len() % 4 == 0,
{
    reveal(encode);
}

/// Opaque data takes a multiple of four bytes.
proof fn lemma_aligned_opaque(data: Seq<u8>)
    ensures
        encode_opaque(data).bytes.len() % 4 == 0,
{
    lemma_padded_length_aligned(data.len());
    if data.len() <= u32::MAX {
        assert(encode_opaque(data).bytes.len() == 4 + (data.len() + pad4(data.len())));
    }
}

/// A string takes a multiple of four bytes.
proof fn lemma_aligned_string(value: SpecValue)
    requires
        value is String,
    ensures
        encode(value).bytes.len() % 4 == 0,
{
    lemma_encode_string(value);
    lemma_aligned_opaque(encode_utf8(value->String_0));
}

/// Opaque data, as a value, takes a multiple of four bytes.
proof fn lemma_aligned_bytes(value: SpecValue)
    requires
        value is Bytes,
    ensures
        encode(value).bytes.len() % 4 == 0,
{
    lemma_encode_bytes(value);
    lemma_aligned_opaque(value->Bytes_0);
}

/// Present optional data takes a multiple of four bytes.
proof fn lemma_aligned_optional(value: SpecValue)
    requires
        value is Optional,
        value->Optional_0 is Some,
    ensures
        encode(value).bytes.len() % 4 == 0,
    decreases value, 0nat,
{
    lemma_encode_optional(value);
    lemma_encoding_aligned(*value->Optional_0->Some_0);
}

/// A struct with one unnamed field takes a multiple of four bytes.
proof fn lemma_aligned_newtype_struct(value: SpecValue)
    requires
        value is NewtypeStruct,
    ensures
        encode(value).bytes.len() % 4 == 0,
    decreases value, 0nat,
{
    lemma_encode_newtype_struct(value);
    lemma_encoding_aligned(*value->NewtypeStruct_value);
}

/// A variant with one unnamed value takes a multiple of four bytes.
proof fn lemma_aligned_newtype_variant(value: SpecValue)
    requires
        value is NewtypeVariant,
    ensures
        encode(value).bytes.len() % 4 == 0,
    decreases value, 0nat,
{
    lemma_encode_newtype_variant(value);
    lemma_encoding_aligned(*value->NewtypeVariant_value);
}

/// A sequence takes a multiple of four bytes.
proof fn lemma_aligned_sequence(value: SpecValue)
    requires
        value is Sequence,
    ensures
        encode(value).bytes.len() % 4 == 0,
    decreases value, 0nat,
{
    lemma_encode_sequence(value);
    lemma_elements_aligned(value->Sequence_0, value->Sequence_0.len(), "sequence"@);
}

/// A tuple takes a multiple of four bytes.
proof fn lemma_aligned_tuple(value: SpecValue)
    requires
        value is Tuple,
    ensures
        encode(value).bytes.len() % 4 == 0,
    decreases value, 0nat,
{
    lemma_encode_tuple(value);
    lemma_elements_aligned(value->Tuple_0, value->Tuple_0.len(), "tuple"@);
}

/// A tuple struct takes a multiple of four bytes.
proof fn lemma_aligned_tuple_struct(value: SpecValue)
    requires
        value is TupleStruct,
    ensures
        encode(value).bytes.len() % 4 == 0,
    decreases value, 0nat,
{
    lemma_encode_tuple_struct(value);
    lemma_elements_aligned(
        value->TupleStruct_fields,
        value->TupleStruct_fields.len(),
        crate::ser::encoding::tuple_struct_name(value->TupleStruct_name),
    );
}

/// A variant with unnamed values takes a multiple of four bytes.
proof fn lemma_aligned_tuple_variant(value: SpecValue)
    requires
        value is TupleVariant,
    ensures
        encode(value).bytes.len() % 4 == 0,
    decreases value, 0nat,
{
    lemma_encode_tuple_variant(value);
    lemma_elements_aligned(
        value->TupleVariant_fields,
        value->TupleVariant_fields.len(),
        crate::ser::encoding::tuple_variant_name(
            value->TupleVariant_name,
            value->TupleVariant_variant,
        ),
    );
}

/// A struct takes a multiple of four bytes.
proof fn lemma_aligned_struct(value: SpecValue)
    requires
        value is Struct,
    ensures
        encode(value).bytes.len() % 4 == 0,
    decreases value, 0nat,
{
    lemma_encode_struct(value);
    lemma_fields_aligned(value->Struct_fields, value->Struct_fields.len(), value->Struct_name);
}

/// A variant with named fields takes a multiple of four bytes.
proof fn lemma_aligned_struct_variant(value: SpecValue)
    requires
        value is StructVariant,
    ensures
        encode(value).bytes.len() % 4 == 0,
    decreases value, 0nat,
{
    lemma_encode_struct_variant(value);
    lemma_fields_aligned(
        value->StructVariant_fields,
        value->StructVariant_fields.len(),
        crate::ser::encoding::struct_variant_name(
            value->StructVariant_name,
            value->StructVariant_variant,
        ),
    );
}

/// Alignment: whatever the value, and whether or not its encoding fails,
/// the bytes written are a multiple of four.
pub proof fn lemma_encoding_aligned(value: SpecValue)
    ensures
        encode(value).bytes.len() % 4 == 0,
    decreases value, 1nat,
{
    match value {
        SpecValue::String(_) => lemma_aligned_string(value),
        SpecValue::Bytes(_) => lemma_aligned_bytes(value),
        SpecValue::Optional(Some(_)) => lemma_aligned_optional(value),
        SpecValue::NewtypeStruct { .. } => lemma_aligned_newtype_struct(value),
        SpecValue::NewtypeVariant { .. } => lemma_aligned_newtype_variant(value),
        SpecValue::Sequence(_) => lemma_aligned_sequence(value),
        SpecValue::Tuple(_) => lemma_aligned_tuple(value),
        SpecValue::TupleStruct { .. } => lemma_aligned_tuple_struct(value),
        SpecValue::TupleVariant { .. } => lemma_aligned_tuple_variant(value),
        SpecValue::Struct { .. } => lemma_aligned_struct(value),
        SpecValue::StructVariant { .. } => lemma_aligned_struct_variant(value),
        _ => lemma_aligned_plain(value),
    }
}

} // verus!
