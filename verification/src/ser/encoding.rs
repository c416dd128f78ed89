//! What the bytes of each value are, and when encoding fails.

use crate::framing::{be_i32, be_i64, be_u32, be_u64, pad4, zeros};
use crate::ser::errors::SpecSerializationError;
use crate::text::decimal_text;
use crate::value::{SpecField, SpecValue};
use vstd::prelude::*;
use vstd::utf8::{encode_utf8, is_ascii_chars};

verus! {

/// What encoding a value does: the bytes that reach the sink, and the error
/// that stopped it, if one did.
pub struct Encoding {
    /// The bytes written, up to the error where there is one.
    pub bytes: Seq<u8>,
    /// The error that ended the encoding early.
    pub error: Option<SpecSerializationError>,
}

impl Encoding {
    /// An encoding that wrote `bytes` and did not fail.
    pub open spec fn complete(bytes: Seq<u8>) -> Encoding {
        Encoding { bytes, error: None }
    }

    /// An encoding that failed before it wrote anything.
    pub open spec fn failed(error: SpecSerializationError) -> Encoding {
        Encoding { bytes: Seq::empty(), error: Some(error) }
    }

    /// This encoding, followed by `next` unless this one failed.
    pub open spec fn followed_by(self, next: Encoding) -> Encoding {
        if self.error is Some {
            self
        } else {
            Encoding { bytes: self.bytes + next.bytes, error: next.error }
        }
    }

    /// This encoding, with its error wrapped in a failure that says what was
    /// being serialized.
    pub open spec fn within(self, what: Seq<char>) -> Encoding {
        match self.error {
            Some(cause) => Encoding {
                bytes: self.bytes,
                error: Some(SpecSerializationError::Failure { what, cause: Box::new(cause) }),
            },
            None => self,
        }
    }
}

/// Length-prefixed opaque data, padded with zeros to a multiple of four bytes.
pub open spec fn encode_opaque(data: Seq<u8>) -> Encoding {
    if data.len() > u32::MAX {
        Encoding::failed(SpecSerializationError::OpaqueTooLong { length: data.len() as usize })
    } else {
        Encoding::complete(be_u32(data.len() as u32) + data + zeros(pad4(data.len())))
    }
}

/// A string: refused where it is too long or not ASCII, else its bytes as
/// opaque data.
pub open spec fn encode_string(string: Seq<char>) -> Encoding {
    if encode_utf8(string).len() > u32::MAX {
        Encoding::failed(SpecSerializationError::StringTooLong { string })
    } else if !is_ascii_chars(string) {
        Encoding::failed(SpecSerializationError::StringNotAscii { string })
    } else {
        encode_opaque(encode_utf8(string))
    }
}

/// The length prefix of a sequence, refused where 32 bits cannot hold it.
pub open spec fn encode_length(length: nat) -> Encoding {
    if length > u32::MAX {
        Encoding::failed(SpecSerializationError::SequenceTooLong { length: length as usize })
    } else {
        Encoding::complete(be_u32(length as u32))
    }
}

/// Description of a value of a type that is named.
pub open spec fn value_what(value: Seq<char>, kind_name: Seq<char>) -> Seq<char> {
    "a value "@ + value + " of type "@ + kind_name
}

/// Description of opaque data of a length.
pub open spec fn opaque_what(length: nat) -> Seq<char> {
    "opaque data of length "@ + decimal_text(length)
}

/// Description of present optional data.
pub open spec fn some_what() -> Seq<char> {
    value_what("optional data"@, "'some'"@)
}

/// Description of a struct with one unnamed field.
pub open spec fn newtype_struct_what(name: Seq<char>) -> Seq<char> {
    "struct "@ + name
}

/// Description of a union variant with one unnamed field.
pub open spec fn newtype_variant_what(name: Seq<char>, variant: Seq<char>) -> Seq<char> {
    "union variant "@ + name + "::"@ + variant
}

/// Description of an element of a sequence or tuple.
pub open spec fn element_what(index: nat, kind_name: Seq<char>) -> Seq<char> {
    "element "@ + decimal_text(index) + " of the type "@ + kind_name
}

/// Description of a field of a struct.
pub open spec fn field_what(struct_name: Seq<char>, field: Seq<char>) -> Seq<char> {
    "struct field "@ + struct_name + "::"@ + field
}

/// Name of a tuple struct, as failures give it.
pub open spec fn tuple_struct_name(name: Seq<char>) -> Seq<char> {
    "tuple struct "@ + name
}

/// Name of a tuple variant, as failures give it.
pub open spec fn tuple_variant_name(name: Seq<char>, variant: Seq<char>) -> Seq<char> {
    "tuple variant "@ + name + "::"@ + variant
}

/// Name of a struct variant, as failures give it.
pub open spec fn struct_variant_name(name: Seq<char>, variant: Seq<char>) -> Seq<char> {
    name + "::"@ + variant
}

/// The encoding of one element, as part of a sequence or tuple.
pub open spec fn encode_element(value: SpecValue, index: nat, kind_name: Seq<char>) -> Encoding
    decreases value, 1nat,
{
    encode(value).within(element_what(index, kind_name))
}

/// The encoding of one field, as part of a struct.
pub open spec fn encode_field(field: SpecField, struct_name: Seq<char>) -> Encoding
    decreases field, 1nat,
{
    encode(field.value).within(field_what(struct_name, field.name))
}

/// The encoding of the first `count` elements of a sequence or tuple: one
/// after the other, up to the first that fails.
pub open spec fn encode_elements(items: Seq<SpecValue>, count: nat, kind_name: Seq<char>) -> Encoding
    decreases items, count,
{
    if count == 0 || count > items.len() {
        Encoding::complete(Seq::empty())
    } else {
        encode_elements(items, (count - 1) as nat, kind_name).followed_by(
            encode_element(items[count - 1], (count - 1) as nat, kind_name),
        )
    }
}

/// The encoding of the first `count` fields of a struct: one after the
/// other, up to the first that fails.
pub open spec fn encode_fields(fields: Seq<SpecField>, count: nat, struct_name: Seq<char>) -> Encoding
    decreases fields, count,
{
    if count == 0 || count > fields.len() {
        Encoding::complete(Seq::empty())
    } else {
        encode_fields(fields, (count - 1) as nat, struct_name).followed_by(
            encode_field(fields[count - 1], struct_name),
        )
    }
}

/// The encoding of a value.
#[verifier::opaque]
pub open spec fn encode(value: SpecValue) -> Encoding
    decreases value, 0nat,
{
    match value {
        SpecValue::Bool(value) => Encoding::complete(
            be_u32(
                if value {
                    1
                } else {
                    0
                },
            ),
        ),
        SpecValue::Integer8(value) => Encoding::complete(be_i32(value as i32)),
        SpecValue::Integer16(value) => Encoding::complete(be_i32(value as i32)),
        SpecValue::Integer32(value) => Encoding::complete(be_i32(value)),
        SpecValue::Integer64(value) => Encoding::complete(be_i64(value)),
        SpecValue::UnsignedInteger8(value) => Encoding::complete(be_u32(value as u32)),
        SpecValue::UnsignedInteger16(value) => Encoding::complete(be_u32(value as u32)),
        SpecValue::UnsignedInteger32(value) => Encoding::complete(be_u32(value)),
        SpecValue::UnsignedInteger64(value) => Encoding::complete(be_u64(value)),
        SpecValue::Float(bits) => Encoding::complete(be_u32(bits)),
        SpecValue::Double(bits) => Encoding::complete(be_u64(bits)),
        SpecValue::Char(value) => Encoding::complete(be_u32(value as u32)),
        SpecValue::String(value) => encode_string(value),
        SpecValue::Bytes(value) => encode_opaque(value),
        SpecValue::Optional(None) => Encoding::complete(be_u32(0)),
        SpecValue::Optional(Some(value)) => Encoding::complete(be_u32(1)).followed_by(
            encode(*value).within(some_what()),
        ),
        SpecValue::Unit => Encoding::complete(Seq::empty()),
        SpecValue::UnitStruct { name } => Encoding::complete(Seq::empty()),
        SpecValue::UnitVariant { name, variant_index, variant } => Encoding::complete(
            be_u32(variant_index),
        ),
        SpecValue::NewtypeStruct { name, value } => encode(*value).within(
            newtype_struct_what(name),
        ),
        SpecValue::NewtypeVariant { name, variant_index, variant, value } => Encoding::complete(
            be_u32(variant_index),
        ).followed_by(encode(*value).within(newtype_variant_what(name, variant))),
        SpecValue::Sequence(items) => encode_length(items.len()).followed_by(
            encode_elements(items, items.len(), "sequence"@),
        ),
        SpecValue::Tuple(items) => encode_elements(items, items.len(), "tuple"@),
        SpecValue::TupleStruct { name, fields } => encode_elements(
            fields,
            fields.len(),
            tuple_struct_name(name),
        ),
        SpecValue::TupleVariant { name, variant_index, variant, fields } => Encoding::complete(
            be_u32(variant_index),
        ).followed_by(encode_elements(fields, fields.len(), tuple_variant_name(name, variant))),
        SpecValue::Dictionary => Encoding::failed(SpecSerializationError::MapNotSupported),
        SpecValue::Struct { name, fields } => encode_fields(fields, fields.len(), name),
        SpecValue::StructVariant { name, variant_index, variant, fields } => Encoding::complete(
            be_u32(variant_index),
        ).followed_by(encode_fields(fields, fields.len(), struct_variant_name(name, variant))),
    }
}

/// Once an element has failed, the elements after it add nothing.
pub proof fn lemma_encode_elements_stops(
    items: Seq<SpecValue>,
    first: nat,
    count: nat,
    kind_name: Seq<char>,
)
    requires
        first <= count <= items.len(),
        encode_elements(items, first, kind_name).error is Some,
    ensures
        encode_elements(items, count, kind_name) == encode_elements(items, first, kind_name),
    decreases count,
{
    if first < count {
        lemma_encode_elements_stops(items, first, (count - 1) as nat, kind_name);
    }
}

/// Once a field has failed, the fields after it add nothing.
pub proof fn lemma_encode_fields_stops(
    fields: Seq<SpecField>,
    first: nat,
    count: nat,
    struct_name: Seq<char>,
)
    requires
        first <= count <= fields.len(),
        encode_fields(fields, first, struct_name).error is Some,
    ensures
        encode_fields(fields, count, struct_name) == encode_fields(fields, first, struct_name),
    decreases count,
{
    if first < count {
        lemma_encode_fields_stops(fields, first, (count - 1) as nat, struct_name);
    }
}

/// An element is encoded as its value is, with its error wrapped.
pub proof fn lemma_encode_element(value: SpecValue, index: nat, kind_name: Seq<char>)
    ensures
        encode_element(value, index, kind_name) == encode(value).within(
            element_what(index, kind_name),
        ),
{
    reveal(encode);
}

/// A field is encoded as its value is, with its error wrapped.
pub proof fn lemma_encode_field(field: SpecField, struct_name: Seq<char>)
    ensures
        encode_field(field, struct_name) == encode(field.value).within(
            field_what(struct_name, field.name),
        ),
{
    reveal(encode);
}

/// What one more element of a sequence or tuple adds.
pub proof fn lemma_encode_elements_step(items: Seq<SpecValue>, count: nat, kind_name: Seq<char>)
    requires
        0 < count <= items.len(),
    ensures
        encode_elements(items, count, kind_name) == encode_elements(
            items,
            (count - 1) as nat,
            kind_name,
        ).followed_by(
            encode(items[count - 1]).within(element_what((count - 1) as nat, kind_name)),
        ),
{
    lemma_encode_element(items[count - 1], (count - 1) as nat, kind_name);
}

/// What one more field of a struct adds.
pub proof fn lemma_encode_fields_step(fields: Seq<SpecField>, count: nat, struct_name: Seq<char>)
    requires
        0 < count <= fields.len(),
    ensures
        encode_fields(fields, count, struct_name) == encode_fields(
            fields,
            (count - 1) as nat,
            struct_name,
        ).followed_by(
            encode(fields[count - 1].value).within(
                field_what(struct_name, fields[count - 1].name),
            ),
        ),
{
    lemma_encode_field(fields[count - 1], struct_name);
}

/// The encoding of a string.
pub proof fn lemma_encode_string(value: SpecValue)
    requires
        value is String,
    ensures
        encode(value) == encode_string(value->String_0),
{
    reveal(encode);
}

/// The encoding of opaque data.
pub proof fn lemma_encode_bytes(value: SpecValue)
    requires
        value is Bytes,
    ensures
        encode(value) == encode_opaque(value->Bytes_0),
{
    reveal(encode);
}

/// The encoding of present optional data.
pub proof fn lemma_encode_optional(value: SpecValue)
    requires
        value is Optional,
        value->Optional_0 is Some,
    ensures
        encode(value) == Encoding::complete(be_u32(1)).followed_by(
            encode(*value->Optional_0->Some_0).within(some_what()),
        ),
{
    reveal(encode);
}

/// The encoding of a struct with one unnamed field.
pub proof fn lemma_encode_newtype_struct(value: SpecValue)
    requires
        value is NewtypeStruct,
    ensures
        encode(value) == encode(*value->NewtypeStruct_value).within(
            newtype_struct_what(value->NewtypeStruct_name),
        ),
{
    reveal(encode);
}

/// The encoding of a variant that holds nothing.
pub proof fn lemma_encode_unit_variant(value: SpecValue)
    requires
        value is UnitVariant,
    ensures
        encode(value) == Encoding::complete(be_u32(value->UnitVariant_variant_index)),
{
    reveal(encode);
}

/// The encoding of a variant with one unnamed value.
pub proof fn lemma_encode_newtype_variant(value: SpecValue)
    requires
        value is NewtypeVariant,
    ensures
        encode(value) == Encoding::complete(
            be_u32(value->NewtypeVariant_variant_index),
        ).followed_by(
            encode(*value->NewtypeVariant_value).within(
                newtype_variant_what(value->NewtypeVariant_name, value->NewtypeVariant_variant),
            ),
        ),
{
    reveal(encode);
}

/// The encoding of a sequence.
pub proof fn lemma_encode_sequence(value: SpecValue)
    requires
        value is Sequence,
    ensures
        encode(value) == encode_length(value->Sequence_0.len()).followed_by(
            encode_elements(value->Sequence_0, value->Sequence_0.len(), "sequence"@),
        ),
{
    reveal(encode);
}

/// The encoding of a tuple.
pub proof fn lemma_encode_tuple(value: SpecValue)
    requires
        value is Tuple,
    ensures
        encode(value) == encode_elements(value->Tuple_0, value->Tuple_0.len(), "tuple"@),
{
    reveal(encode);
}

/// The encoding of a tuple struct.
pub proof fn lemma_encode_tuple_struct(value: SpecValue)
    requires
        value is TupleStruct,
    ensures
        encode(value) == encode_elements(
            value->TupleStruct_fields,
            value->TupleStruct_fields.len(),
            tuple_struct_name(value->TupleStruct_name),
        ),
{
    reveal(encode);
}

/// The encoding of a variant with unnamed values.
pub proof fn lemma_encode_tuple_variant(value: SpecValue)
    requires
        value is TupleVariant,
    ensures
        encode(value) == Encoding::complete(be_u32(value->TupleVariant_variant_index)).followed_by(
            encode_elements(
                value->TupleVariant_fields,
                value->TupleVariant_fields.len(),
                tuple_variant_name(value->TupleVariant_name, value->TupleVariant_variant),
            ),
        ),
{
    reveal(encode);
}

/// The encoding of a struct.
pub proof fn lemma_encode_struct(value: SpecValue)
    requires
        value is Struct,
    ensures
        encode(value) == encode_fields(
            value->Struct_fields,
            value->Struct_fields.len(),
            value->Struct_name,
        ),
{
    reveal(encode);
}

/// The encoding of a variant with named fields.
pub proof fn lemma_encode_struct_variant(value: SpecValue)
    requires
        value is StructVariant,
    ensures
        encode(value) == Encoding::complete(
            be_u32(value->StructVariant_variant_index),
        ).followed_by(
            encode_fields(
                value->StructVariant_fields,
                value->StructVariant_fields.len(),
                struct_variant_name(value->StructVariant_name, value->StructVariant_variant),
            ),
        ),
{
    reveal(encode);
}

} // verus!
