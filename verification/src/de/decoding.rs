//! What value the bytes at a position hold, and when decoding fails.

use crate::de::errors::{end_of_input, SpecDeserializationError};
use crate::framing::{i32_of_unsigned, i64_of_unsigned, pad4, u32_of_be, u64_of_be};
use crate::kind::{variant_names, FieldKind, Kind, VariantKind, VariantShape};
use crate::text::decimal_text;
use crate::value::{SpecField, SpecValue};
use vstd::arithmetic::power2::pow2;
use vstd::prelude::*;
use vstd::utf8::{decode_utf8, valid_utf8};

verus! {

/// What decoding does: where the source stands afterwards, and the value
/// read or the error that stopped it.
pub struct Decoded<T> {
    /// The position of the first byte that was not consumed.
    pub position: int,
    /// The value, or the error.
    pub result: Result<T, SpecDeserializationError>,
}

impl<T> Decoded<T> {
    /// A value read, with the source at `position`.
    pub open spec fn ok(position: int, value: T) -> Decoded<T> {
        Decoded { position, result: Ok(value) }
    }

    /// An error, with the source at `position`.
    pub open spec fn fail(position: int, error: SpecDeserializationError) -> Decoded<T> {
        Decoded { position, result: Err(error) }
    }

    /// The same outcome, with the value mapped.
    pub open spec fn map<U>(self, f: spec_fn(T) -> U) -> Decoded<U> {
        match self.result {
            Ok(value) => Decoded { position: self.position, result: Ok(f(value)) },
            Err(error) => Decoded { position: self.position, result: Err(error) },
        }
    }

    /// The same outcome, with its error wrapped in a failure that says what
    /// was being deserialized.
    pub open spec fn within(self, what: Seq<char>) -> Decoded<T> {
        match self.result {
            Ok(value) => self,
            Err(cause) => Decoded {
                position: self.position,
                result: Err(SpecDeserializationError::Failure { what, cause: Box::new(cause) }),
            },
        }
    }
}

/// The error of a source that ran out of bytes while `what` was read.
pub open spec fn io_failure(what: Seq<char>) -> SpecDeserializationError {
    SpecDeserializationError::IoError { what, cause: end_of_input() }
}

/// Whether a number fits in a signed integer of the given width.
pub open spec fn fits_signed(bits: u8, value: i32) -> bool {
    -pow2((bits - 1) as nat) <= value <= pow2((bits - 1) as nat) - 1
}

/// Whether a number fits in an unsigned integer of the given width.
pub open spec fn fits_unsigned(bits: u8, value: u32) -> bool {
    value <= pow2(bits as nat) - 1
}

/// Whether a number is a Unicode scalar value.
pub open spec fn is_char(raw: u32) -> bool {
    raw <= 0xD7FF || 0xE000 <= raw <= 0x10_FFFF
}

/// A 32-bit slot: four bytes, or an error of the source.
pub open spec fn decode_u32(bytes: Seq<u8>, position: int, what: Seq<char>) -> Decoded<u32> {
    if position + 4 <= bytes.len() {
        Decoded::ok(position + 4, u32_of_be(bytes.subrange(position, position + 4)))
    } else {
        Decoded::fail(position, io_failure(what))
    }
}

/// A 64-bit slot: eight bytes, or an error of the source.
pub open spec fn decode_u64(bytes: Seq<u8>, position: int, what: Seq<char>) -> Decoded<u64> {
    if position + 8 <= bytes.len() {
        Decoded::ok(position + 8, u64_of_be(bytes.subrange(position, position + 8)))
    } else {
        Decoded::fail(position, io_failure(what))
    }
}

/// A boolean: a 32-bit zero or one.
pub open spec fn decode_bool(bytes: Seq<u8>, position: int) -> Decoded<bool> {
    let slot = decode_u32(bytes, position, "bool"@);
    match slot.result {
        Ok(raw) => if raw == 0 {
            Decoded::ok(slot.position, false)
        } else if raw == 1 {
            Decoded::ok(slot.position, true)
        } else {
            Decoded::fail(slot.position, SpecDeserializationError::InvalidBool { raw })
        },
        Err(error) => Decoded::fail(slot.position, error),
    }
}

/// Description of a signed integer of the given width.
pub open spec fn signed_what(bits: u8) -> Seq<char> {
    "signed "@ + decimal_text(bits as nat) + "-bit integer"@
}

/// Description of an unsigned integer of the given width.
pub open spec fn unsigned_what(bits: u8) -> Seq<char> {
    "unsigned "@ + decimal_text(bits as nat) + "-bit integer"@
}

/// A signed integer of the given width, in a 32-bit slot.
pub open spec fn decode_integer(bytes: Seq<u8>, position: int, bits: u8) -> Decoded<i32> {
    let slot = decode_u32(bytes, position, signed_what(bits));
    match slot.result {
        Ok(raw) => {
            let value = i32_of_unsigned(raw);
            if fits_signed(bits, value) {
                Decoded::ok(slot.position, value)
            } else {
                Decoded::fail(
                    slot.position,
                    SpecDeserializationError::InvalidSignedInteger { bits, value },
                )
            }
        },
        Err(error) => Decoded::fail(slot.position, error),
    }
}

/// An unsigned integer of the given width, in a 32-bit slot.
pub open spec fn decode_unsigned_integer(bytes: Seq<u8>, position: int, bits: u8) -> Decoded<u32> {
    let slot = decode_u32(bytes, position, unsigned_what(bits));
    match slot.result {
        Ok(value) => if fits_unsigned(bits, value) {
            Decoded::ok(slot.position, value)
        } else {
            Decoded::fail(
                slot.position,
                SpecDeserializationError::InvalidUnsignedInteger { bits, value },
            )
        },
        Err(error) => Decoded::fail(slot.position, error),
    }
}

/// A character: a 32-bit Unicode scalar value.
pub open spec fn decode_char(bytes: Seq<u8>, position: int) -> Decoded<char> {
    let slot = decode_u32(bytes, position, "char"@);
    match slot.result {
        Ok(raw) => if is_char(raw) {
            Decoded::ok(slot.position, raw as char)
        } else {
            Decoded::fail(slot.position, SpecDeserializationError::InvalidChar { raw })
        },
        Err(error) => Decoded::fail(slot.position, error),
    }
}

/// Opaque data: a 32-bit length, that many bytes, and the padding, which is
/// read and dropped. Where the data or its padding is cut short, the source
/// stays behind the length.
pub open spec fn decode_opaque(bytes: Seq<u8>, position: int, what: Seq<char>) -> Decoded<Seq<u8>> {
    let slot = decode_u32(bytes, position, what);
    match slot.result {
        Ok(length) => {
            let end = slot.position + length + pad4(length as nat);
            if end <= bytes.len() {
                Decoded::ok(end, bytes.subrange(slot.position, slot.position + length))
            } else {
                Decoded::fail(slot.position, io_failure(what))
            }
        },
        Err(error) => Decoded::fail(slot.position, error),
    }
}

/// A string: opaque data that is UTF-8.
pub open spec fn decode_string(bytes: Seq<u8>, position: int) -> Decoded<Seq<char>> {
    let data = decode_opaque(bytes, position, "string"@);
    match data.result {
        Ok(content) => if valid_utf8(content) {
            Decoded::ok(data.position, decode_utf8(content))
        } else {
            Decoded::fail(data.position, SpecDeserializationError::InvalidUtf8)
        },
        Err(error) => Decoded::fail(data.position, error),
    }
}

/// Description of a struct with one unnamed field.
pub open spec fn newtype_struct_what(name: Seq<char>) -> Seq<char> {
    "struct "@ + name
}

/// Description of an element of a sequence or tuple.
pub open spec fn element_what(index: nat, kind_name: Seq<char>) -> Seq<char> {
    "element "@ + decimal_text(index) + " of type "@ + kind_name
}

/// Description of a field of a struct.
pub open spec fn field_what(struct_name: Seq<char>, field: Seq<char>) -> Seq<char> {
    "struct field "@ + struct_name + "::"@ + field
}

/// Description of a variant of a union.
pub open spec fn variant_what(enum_name: Seq<char>, variant: Seq<char>) -> Seq<char> {
    "enum variant "@ + enum_name + "::"@ + variant
}

/// Description of a union.
pub open spec fn enum_what(name: Seq<char>) -> Seq<char> {
    "enum "@ + name
}

/// Name of a tuple struct, as failures give it.
pub open spec fn tuple_struct_name(name: Seq<char>) -> Seq<char> {
    "tuple struct "@ + name
}

/// One more element after those that `before` holds, unless they failed:
/// `next` is what decoding the element gives from where they ended.
pub open spec fn push_element(
    before: Decoded<Seq<SpecValue>>,
    next: Decoded<SpecValue>,
    what: Seq<char>,
) -> Decoded<Seq<SpecValue>> {
    match before.result {
        Ok(items) => match next.result {
            Ok(value) => Decoded::ok(next.position, items.push(value)),
            Err(cause) => Decoded::fail(
                next.position,
                SpecDeserializationError::Failure { what, cause: Box::new(cause) },
            ),
        },
        Err(error) => before,
    }
}

/// One more field after those that `before` holds, unless they failed.
pub open spec fn push_field(
    before: Decoded<Seq<SpecField>>,
    next: Decoded<SpecValue>,
    name: Seq<char>,
    what: Seq<char>,
) -> Decoded<Seq<SpecField>> {
    match before.result {
        Ok(fields) => match next.result {
            Ok(value) => Decoded::ok(next.position, fields.push(SpecField { name, value })),
            Err(cause) => Decoded::fail(
                next.position,
                SpecDeserializationError::Failure { what, cause: Box::new(cause) },
            ),
        },
        Err(error) => before,
    }
}

/// The first `count` elements of a sequence, all of one kind: one after the
/// other, up to the first that fails.
pub open spec fn decode_repeated(
    bytes: Seq<u8>,
    position: int,
    kind: Kind,
    count: nat,
    kind_name: Seq<char>,
) -> Decoded<Seq<SpecValue>>
    decreases kind, 1nat, count,
{
    if count == 0 {
        Decoded::ok(position, Seq::empty())
    } else {
        let before = decode_repeated(bytes, position, kind, (count - 1) as nat, kind_name);
        push_element(
            before,
            decode(bytes, before.position, kind),
            element_what((count - 1) as nat, kind_name),
        )
    }
}

/// The first `count` elements of a tuple, each of its own kind: one after
/// the other, up to the first that fails.
pub open spec fn decode_elements(
    bytes: Seq<u8>,
    position: int,
    kinds: Vec<Kind>,
    count: nat,
    kind_name: Seq<char>,
) -> Decoded<Seq<SpecValue>>
    decreases kinds, 0nat, count,
{
    if count == 0 || count > kinds.len() {
        Decoded::ok(position, Seq::empty())
    } else {
        let before = decode_elements(bytes, position, kinds, (count - 1) as nat, kind_name);
        push_element(
            before,
            decode(bytes, before.position, kinds[count - 1]),
            element_what((count - 1) as nat, kind_name),
        )
    }
}

/// The first `count` fields of a struct: one after the other, up to the
/// first that fails.
pub open spec fn decode_fields(
    bytes: Seq<u8>,
    position: int,
    fields: Vec<FieldKind>,
    count: nat,
    struct_name: Seq<char>,
) -> Decoded<Seq<SpecField>>
    decreases fields, 0nat, count,
{
    if count == 0 || count > fields.len() {
        Decoded::ok(position, Seq::empty())
    } else {
        let before = decode_fields(bytes, position, fields, (count - 1) as nat, struct_name);
        push_field(
            before,
            decode(bytes, before.position, fields[count - 1].kind),
            fields[count - 1].name@,
            field_what(struct_name, fields[count - 1].name@),
        )
    }
}

/// A tuple: refused where it has more elements than 32 bits can count, else
/// its elements in order, without a length.
pub open spec fn decode_tuple(
    bytes: Seq<u8>,
    position: int,
    kinds: Vec<Kind>,
    kind_name: Seq<char>,
) -> Decoded<Seq<SpecValue>>
    decreases kinds, 1nat, 0nat,
{
    if kinds.len() > u32::MAX {
        Decoded::fail(position, SpecDeserializationError::TupleTooLong { length: kinds.len() })
    } else {
        decode_elements(bytes, position, kinds, kinds.len() as nat, kind_name)
    }
}

/// What a variant holds, after its discriminant.
pub open spec fn decode_variant(
    bytes: Seq<u8>,
    position: int,
    name: Seq<char>,
    variant_index: u32,
    variant: VariantKind,
) -> Decoded<SpecValue>
    decreases variant, 0nat, 0nat,
{
    let what = variant_what(name, variant.name@);
    match variant.shape {
        VariantShape::Unit => Decoded::ok(
            position,
            SpecValue::UnitVariant { name, variant_index, variant: variant.name@ },
        ),
        VariantShape::Newtype(kind) => decode(bytes, position, *kind).within(what).map(
            |value: SpecValue|
                SpecValue::NewtypeVariant {
                    name,
                    variant_index,
                    variant: variant.name@,
                    value: Box::new(value),
                },
        ),
        VariantShape::Tuple(kinds) => decode_tuple(bytes, position, kinds, "tuple"@).within(
            what,
        ).map(
            |fields: Seq<SpecValue>|
                SpecValue::TupleVariant { name, variant_index, variant: variant.name@, fields },
        ),
        VariantShape::Struct(fields) => decode_fields(
            bytes,
            position,
            fields,
            fields.len() as nat,
            variant.name@,
        ).within(what).map(
            |fields: Seq<SpecField>|
                SpecValue::StructVariant { name, variant_index, variant: variant.name@, fields },
        ),
    }
}

/// Optional data: a 32-bit zero, or a 32-bit one and the value.
pub open spec fn decode_option(bytes: Seq<u8>, position: int, kind: Kind) -> Decoded<
    Option<SpecValue>,
>
    decreases kind, 2nat, 0nat,
{
    let slot = decode_u32(bytes, position, "option"@);
    match slot.result {
        Ok(raw) => if raw == 0 {
            Decoded::ok(slot.position, None)
        } else if raw == 1 {
            decode(bytes, slot.position, kind).within("option"@).map(
                |value: SpecValue| Some(value),
            )
        } else {
            Decoded::fail(slot.position, SpecDeserializationError::InvalidOption)
        },
        Err(error) => Decoded::fail(slot.position, error),
    }
}

/// A struct with one unnamed field: the field's value alone.
pub open spec fn decode_newtype_struct(
    bytes: Seq<u8>,
    position: int,
    name: Seq<char>,
    kind: Kind,
) -> Decoded<SpecValue>
    decreases kind, 2nat, 0nat,
{
    decode(bytes, position, kind).within(newtype_struct_what(name))
}

/// A sequence: a 32-bit length, then that many elements of one kind.
pub open spec fn decode_seq(bytes: Seq<u8>, position: int, element: Kind) -> Decoded<
    Seq<SpecValue>,
>
    decreases element, 2nat, 0nat,
{
    let slot = decode_u32(bytes, position, "sequence"@);
    match slot.result {
        Ok(length) => decode_repeated(bytes, slot.position, element, length as nat, "sequence"@),
        Err(error) => Decoded::fail(slot.position, error),
    }
}

/// A union: a 32-bit discriminant, which must select one of the variants,
/// then what that variant holds.
pub open spec fn decode_enum(
    bytes: Seq<u8>,
    position: int,
    name: Seq<char>,
    variants: Vec<VariantKind>,
) -> Decoded<SpecValue>
    decreases variants, 1nat, 0nat,
{
    let slot = decode_u32(bytes, position, enum_what(name));
    match slot.result {
        Ok(raw) => if raw < variants.len() {
            decode_variant(bytes, slot.position, name, raw, variants[raw as int])
        } else {
            Decoded::fail(
                slot.position,
                SpecDeserializationError::InvalidEnumVariant {
                    variant: raw,
                    variants: variant_names(variants@),
                },
            )
        },
        Err(error) => Decoded::fail(slot.position, error),
    }
}

/// The mathematical value of optional data.
pub open spec fn optional(value: Option<SpecValue>) -> SpecValue {
    match value {
        Some(value) => SpecValue::Optional(Some(Box::new(value))),
        None => SpecValue::Optional(None),
    }
}

/// The value of the given kind that the bytes hold at a position.
#[verifier::opaque]
pub open spec fn decode(bytes: Seq<u8>, position: int, kind: Kind) -> Decoded<SpecValue>
    decreases kind, 0nat, 0nat,
{
    match kind {
        Kind::Any => Decoded::fail(position, SpecDeserializationError::UnknownType),
        Kind::Bool => decode_bool(bytes, position).map(|value: bool| SpecValue::Bool(value)),
        Kind::Integer8 => decode_integer(bytes, position, 8).map(
            |value: i32| SpecValue::Integer8(value as i8),
        ),
        Kind::Integer16 => decode_integer(bytes, position, 16).map(
            |value: i32| SpecValue::Integer16(value as i16),
        ),
        Kind::Integer32 => decode_integer(bytes, position, 32).map(
            |value: i32| SpecValue::Integer32(value),
        ),
        Kind::Integer64 => decode_u64(bytes, position, "signed 64-bit integer"@).map(
            |raw: u64| SpecValue::Integer64(i64_of_unsigned(raw)),
        ),
        Kind::UnsignedInteger8 => decode_unsigned_integer(bytes, position, 8).map(
            |value: u32| SpecValue::UnsignedInteger8(value as u8),
        ),
        Kind::UnsignedInteger16 => decode_unsigned_integer(bytes, position, 16).map(
            |value: u32| SpecValue::UnsignedInteger16(value as u16),
        ),
        Kind::UnsignedInteger32 => decode_unsigned_integer(bytes, position, 32).map(
            |value: u32| SpecValue::UnsignedInteger32(value),
        ),
        Kind::UnsignedInteger64 => decode_u64(bytes, position, "unsigned 64-bit integer"@).map(
            |raw: u64| SpecValue::UnsignedInteger64(raw),
        ),
        Kind::Float => decode_u32(bytes, position, "float"@).map(
            |bits: u32| SpecValue::Float(bits),
        ),
        Kind::Double => decode_u64(bytes, position, "double"@).map(
            |bits: u64| SpecValue::Double(bits),
        ),
        Kind::Char => decode_char(bytes, position).map(|value: char| SpecValue::Char(value)),
        Kind::String => decode_string(bytes, position).map(
            |value: Seq<char>| SpecValue::String(value),
        ),
        Kind::Bytes => decode_opaque(bytes, position, "opaque"@).map(
            |value: Seq<u8>| SpecValue::Bytes(value),
        ),
        Kind::Optional(inner) => decode_option(bytes, position, *inner).map(
            |value: Option<SpecValue>| optional(value),
        ),
        Kind::Unit => Decoded::ok(position, SpecValue::Unit),
        Kind::UnitStruct { name } => Decoded::ok(position, SpecValue::UnitStruct { name: name@ }),
        Kind::NewtypeStruct { name, kind } => decode_newtype_struct(
            bytes,
            position,
            name@,
            *kind,
        ).map(|value: SpecValue| SpecValue::NewtypeStruct { name: name@, value: Box::new(value) }),
        Kind::Sequence(element) => decode_seq(bytes, position, *element).map(
            |items: Seq<SpecValue>| SpecValue::Sequence(items),
        ),
        Kind::Tuple(kinds) => decode_tuple(bytes, position, kinds, "tuple"@).map(
            |items: Seq<SpecValue>| SpecValue::Tuple(items),
        ),
        Kind::TupleStruct { name, fields } => decode_tuple(
            bytes,
            position,
            fields,
            tuple_struct_name(name@),
        ).map(|fields: Seq<SpecValue>| SpecValue::TupleStruct { name: name@, fields }),
        Kind::Dictionary => Decoded::fail(position, SpecDeserializationError::MapNotSupported),
        Kind::Struct { name, fields } => decode_fields(
            bytes,
            position,
            fields,
            fields.len() as nat,
            name@,
        ).map(|fields: Seq<SpecField>| SpecValue::Struct { name: name@, fields }),
        Kind::Enum { name, variants } => decode_enum(bytes, position, name@, variants),
        Kind::Identifier => Decoded::fail(
            position,
            SpecDeserializationError::IdentifierNotSupported,
        ),
        Kind::IgnoredAny => Decoded::fail(position, SpecDeserializationError::UnknownType),
    }
}

/// What one more element of a sequence adds.
pub proof fn lemma_decode_repeated_step(
    bytes: Seq<u8>,
    position: int,
    kind: Kind,
    count: nat,
    kind_name: Seq<char>,
)
    requires
        count > 0,
    ensures
        decode_repeated(bytes, position, kind, count, kind_name) == push_element(
            decode_repeated(bytes, position, kind, (count - 1) as nat, kind_name),
            decode(
                bytes,
                decode_repeated(bytes, position, kind, (count - 1) as nat, kind_name).position,
                kind,
            ),
            element_what((count - 1) as nat, kind_name),
        ),
{
    reveal(decode);
}

/// What one more element of a tuple adds.
pub proof fn lemma_decode_elements_step(
    bytes: Seq<u8>,
    position: int,
    kinds: Vec<Kind>,
    count: nat,
    kind_name: Seq<char>,
)
    requires
        0 < count <= kinds@.len(),
    ensures
        decode_elements(bytes, position, kinds, count, kind_name) == push_element(
            decode_elements(bytes, position, kinds, (count - 1) as nat, kind_name),
            decode(
                bytes,
                decode_elements(bytes, position, kinds, (count - 1) as nat, kind_name).position,
                kinds@[count - 1],
            ),
            element_what((count - 1) as nat, kind_name),
        ),
{
    reveal(decode);
}

/// What one more field of a struct adds.
pub proof fn lemma_decode_fields_step(
    bytes: Seq<u8>,
    position: int,
    fields: Vec<FieldKind>,
    count: nat,
    struct_name: Seq<char>,
)
    requires
        0 < count <= fields@.len(),
    ensures
        decode_fields(bytes, position, fields, count, struct_name) == push_field(
            decode_fields(bytes, position, fields, (count - 1) as nat, struct_name),
            decode(
                bytes,
                decode_fields(bytes, position, fields, (count - 1) as nat, struct_name).position,
                fields@[count - 1].kind,
            ),
            fields@[count - 1].name@,
            field_what(struct_name, fields@[count - 1].name@),
        ),
{
    reveal(decode);
}

/// Once an element of a sequence has failed, the elements after it change
/// nothing.
pub proof fn lemma_decode_repeated_stops(
    bytes: Seq<u8>,
    position: int,
    kind: Kind,
    first: nat,
    count: nat,
    kind_name: Seq<char>,
)
    requires
        first <= count,
        decode_repeated(bytes, position, kind, first, kind_name).result is Err,
    ensures
        decode_repeated(bytes, position, kind, count, kind_name) == decode_repeated(
            bytes,
            position,
            kind,
            first,
            kind_name,
        ),
    decreases count,
{
    if first < count {
        lemma_decode_repeated_stops(bytes, position, kind, first, (count - 1) as nat, kind_name);
    }
}

/// Once an element of a tuple has failed, the elements after it change
/// nothing.
pub proof fn lemma_decode_elements_stops(
    bytes: Seq<u8>,
    position: int,
    kinds: Vec<Kind>,
    first: nat,
    count: nat,
    kind_name: Seq<char>,
)
    requires
        first <= count <= kinds@.len(),
        decode_elements(bytes, position, kinds, first, kind_name).result is Err,
    ensures
        decode_elements(bytes, position, kinds, count, kind_name) == decode_elements(
            bytes,
            position,
            kinds,
            first,
            kind_name,
        ),
    decreases count,
{
    if first < count {
        lemma_decode_elements_stops(bytes, position, kinds, first, (count - 1) as nat, kind_name);
    }
}

/// Once a field of a struct has failed, the fields after it change nothing.
pub proof fn lemma_decode_fields_stops(
    bytes: Seq<u8>,
    position: int,
    fields: Vec<FieldKind>,
    first: nat,
    count: nat,
    struct_name: Seq<char>,
)
    requires
        first <= count <= fields@.len(),
        decode_fields(bytes, position, fields, first, struct_name).result is Err,
    ensures
        decode_fields(bytes, position, fields, count, struct_name) == decode_fields(
            bytes,
            position,
            fields,
            first,
            struct_name,
        ),
    decreases count,
{
    if first < count {
        lemma_decode_fields_stops(bytes, position, fields, first, (count - 1) as nat, struct_name);
    }
}

/// Whether a position is one that decoding from `position` can end at:
/// not before it, and not behind the last byte.
pub open spec fn within_input(bytes: Seq<u8>, position: int, end: int) -> bool {
    position <= end <= bytes.len()
}

/// The elements of a sequence are read forwards, and from the input alone.
pub proof fn lemma_repeated_within_input(
    bytes: Seq<u8>,
    position: int,
    kind: Kind,
    count: nat,
    kind_name: Seq<char>,
)
    requires
        0 <= position <= bytes.len(),
    ensures
        within_input(
            bytes,
            position,
            decode_repeated(bytes, position, kind, count, kind_name).position,
        ),
    decreases kind, 1nat, count,
{
    if count > 0 {
        lemma_decode_repeated_step(bytes, position, kind, count, kind_name);
        lemma_repeated_within_input(bytes, position, kind, (count - 1) as nat, kind_name);
        lemma_decode_within_input(
            bytes,
            decode_repeated(bytes, position, kind, (count - 1) as nat, kind_name).position,
            kind,
        );
    }
}

/// The elements of a tuple are read forwards, and from the input alone.
pub proof fn lemma_elements_within_input(
    bytes: Seq<u8>,
    position: int,
    kinds: Vec<Kind>,
    count: nat,
    kind_name: Seq<char>,
)
    requires
        0 <= position <= bytes.len(),
    ensures
        within_input(
            bytes,
            position,
            decode_elements(bytes, position, kinds, count, kind_name).position,
        ),
    decreases kinds, 0nat, count,
{
    if 0 < count <= kinds@.len() {
        lemma_decode_elements_step(bytes, position, kinds, count, kind_name);
        lemma_elements_within_input(bytes, position, kinds, (count - 1) as nat, kind_name);
        lemma_decode_within_input(
            bytes,
            decode_elements(bytes, position, kinds, (count - 1) as nat, kind_name).position,
            kinds@[count - 1],
        );
    }
}

/// The fields of a struct are read forwards, and from the input alone.
pub proof fn lemma_fields_within_input(
    bytes: Seq<u8>,
    position: int,
    fields: Vec<FieldKind>,
    count: nat,
    struct_name: Seq<char>,
)
    requires
        0 <= position <= bytes.len(),
    ensures
        within_input(
            bytes,
            position,
            decode_fields(bytes, position, fields, count, struct_name).position,
        ),
    decreases fields, 0nat, count,
{
    if 0 < count <= fields@.len() {
        lemma_decode_fields_step(bytes, position, fields, count, struct_name);
        lemma_fields_within_input(bytes, position, fields, (count - 1) as nat, struct_name);
        lemma_decode_within_input(
            bytes,
            decode_fields(bytes, position, fields, (count - 1) as nat, struct_name).position,
            fields@[count - 1].kind,
        );
    }
}

/// What a variant holds is read forwards, and from the input alone.
pub proof fn lemma_variant_within_input(
    bytes: Seq<u8>,
    position: int,
    name: Seq<char>,
    variant_index: u32,
    variant: VariantKind,
)
    requires
        0 <= position <= bytes.len(),
    ensures
        within_input(
            bytes,
            position,
            decode_variant(bytes, position, name, variant_index, variant).position,
        ),
    decreases variant, 0nat, 0nat,
{
    reveal(decode);
    match variant.shape {
        VariantShape::Unit => {},
        VariantShape::Newtype(kind) => {
            lemma_decode_within_input(bytes, position, *kind);
        },
        VariantShape::Tuple(kinds) => {
            lemma_elements_within_input(bytes, position, kinds, kinds@.len(), "tuple"@);
        },
        VariantShape::Struct(fields) => {
            lemma_fields_within_input(bytes, position, fields, fields@.len(), variant.name@);
        },
    }
}

/// Decoding reads forwards, and from the input alone: whether it succeeds
/// or fails, it ends at a position that is not before the one it started
/// at and not behind the last byte.
pub proof fn lemma_decode_within_input(bytes: Seq<u8>, position: int, kind: Kind)
    requires
        0 <= position <= bytes.len(),
    ensures
        within_input(bytes, position, decode(bytes, position, kind).position),
    decreases kind, 0nat, 0nat,
{
    reveal(decode);
    match kind {
        Kind::Optional(inner) => {
            if position + 4 <= bytes.len() {
                lemma_decode_within_input(bytes, position + 4, *inner);
            }
        },
        Kind::NewtypeStruct { name, kind } => {
            lemma_decode_within_input(bytes, position, *kind);
        },
        Kind::Sequence(element) => {
            if position + 4 <= bytes.len() {
                let length = u32_of_be(bytes.subrange(position, position + 4));
                lemma_repeated_within_input(
                    bytes,
                    position + 4,
                    *element,
                    length as nat,
                    "sequence"@,
                );
            }
        },
        Kind::Tuple(kinds) => {
            lemma_elements_within_input(bytes, position, kinds, kinds@.len(), "tuple"@);
        },
        Kind::TupleStruct { name, fields } => {
            lemma_elements_within_input(
                bytes,
                position,
                fields,
                fields@.len(),
                tuple_struct_name(name@),
            );
        },
        Kind::Struct { name, fields } => {
            lemma_fields_within_input(bytes, position, fields, fields@.len(), name@);
        },
        Kind::Enum { name, variants } => {
            if position + 4 <= bytes.len() {
                let raw = u32_of_be(bytes.subrange(position, position + 4));
                if raw < variants@.len() {
                    lemma_variant_within_input(
                        bytes,
                        position + 4,
                        name@,
                        raw,
                        variants@[raw as int],
                    );
                }
            }
        },
        _ => {},
    }
}

} // verus!
