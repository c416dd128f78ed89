//! Round trip: decoding what was encoded gives the value back. Decoding
//! also stays within its input.

use crate::de::decoding::{
    decode, decode_elements, decode_enum, decode_fields, decode_opaque, decode_repeated,
    decode_u32, decode_u64, decode_variant, enum_what, lemma_decode_elements_step,
    lemma_decode_fields_step, lemma_decode_repeated_step, signed_what, tuple_struct_name,
    unsigned_what, Decoded,
};
use crate::framing::{
    be_u32, be_u64, lemma_i32_round_trip, lemma_i64_round_trip, lemma_u32_round_trip,
    lemma_u64_round_trip, pad4, unsigned_of_i32, unsigned_of_i64, zeros,
};
use crate::kind::{FieldKind, Kind, VariantKind, VariantShape};
use crate::ser::encoding::{
    encode, encode_elements, encode_fields, encode_opaque, lemma_encode_elements_step,
    lemma_encode_fields_step, lemma_encode_newtype_variant, lemma_encode_struct_variant,
    lemma_encode_tuple_variant, lemma_encode_unit_variant,
};
use crate::value::{SpecField, SpecValue};
use vstd::arithmetic::power2::{lemma2_to64, lemma2_to64_rest};
use vstd::prelude::*;
use vstd::utf8::{
    char_is_scalar, char_u32_cast, encode_utf8, encode_utf8_decode_utf8, encode_utf8_valid_utf8,
};

verus! {

/// Whether the first `count` of some values are all of one kind.
pub open spec fn conform_repeated(items: Seq<SpecValue>, kind: Kind, count: nat) -> bool
    decreases items, count,
{
    if count == 0 || count > items.len() {
        true
    } else {
        conform_repeated(items, kind, (count - 1) as nat) && conforms(items[count - 1], kind)
    }
}

/// Whether the first `count` of some values are each of the kind in its
/// place.
pub open spec fn conform_each(items: Seq<SpecValue>, kinds: Vec<Kind>, count: nat) -> bool
    decreases items, count,
{
    if count == 0 || count > items.len() || count > kinds.len() {
        true
    } else {
        conform_each(items, kinds, (count - 1) as nat) && conforms(
            items[count - 1],
            kinds[count - 1],
        )
    }
}

/// Whether the first `count` of some fields each have the name and the kind
/// in their place.
pub open spec fn conform_fields(fields: Seq<SpecField>, kinds: Vec<FieldKind>, count: nat) -> bool
    decreases fields, count,
{
    if count == 0 || count > fields.len() || count > kinds.len() {
        true
    } else {
        &&& conform_fields(fields, kinds, (count - 1) as nat)
        &&& fields[count - 1].name == kinds[count - 1].name@
        &&& conforms(fields[count - 1].value, kinds[count - 1].kind)
    }
}

/// Whether a value is of a kind: the kind describes its shape, names and
/// all, and no tuple in it has more elements than 32 bits can count.
pub open spec fn conforms(value: SpecValue, kind: Kind) -> bool
    decreases value, 0nat,
{
    match value {
        SpecValue::Bool(_) => kind is Bool,
        SpecValue::Integer8(_) => kind is Integer8,
        SpecValue::Integer16(_) => kind is Integer16,
        SpecValue::Integer32(_) => kind is Integer32,
        SpecValue::Integer64(_) => kind is Integer64,
        SpecValue::UnsignedInteger8(_) => kind is UnsignedInteger8,
        SpecValue::UnsignedInteger16(_) => kind is UnsignedInteger16,
        SpecValue::UnsignedInteger32(_) => kind is UnsignedInteger32,
        SpecValue::UnsignedInteger64(_) => kind is UnsignedInteger64,
        SpecValue::Float(_) => kind is Float,
        SpecValue::Double(_) => kind is Double,
        SpecValue::Char(_) => kind is Char,
        SpecValue::String(_) => kind is String,
        SpecValue::Bytes(_) => kind is Bytes,
        SpecValue::Optional(None) => kind is Optional,
        SpecValue::Optional(Some(inner)) => match kind {
            Kind::Optional(inner_kind) => conforms(*inner, *inner_kind),
            _ => false,
        },
        SpecValue::Unit => kind is Unit,
        SpecValue::UnitStruct { name } => match kind {
            Kind::UnitStruct { name: kind_name } => name == kind_name@,
            _ => false,
        },
        SpecValue::UnitVariant { name, variant_index, variant } => match kind {
            Kind::Enum { name: kind_name, variants } => {
                &&& name == kind_name@
                &&& variant_index < variants.len()
                &&& variant == variants[variant_index as int].name@
                &&& variants[variant_index as int].shape is Unit
            },
            _ => false,
        },
        SpecValue::NewtypeStruct { name, value } => match kind {
            Kind::NewtypeStruct { name: kind_name, kind: inner_kind } => name == kind_name@
                && conforms(*value, *inner_kind),
            _ => false,
        },
        SpecValue::NewtypeVariant { name, variant_index, variant, value } => match kind {
            Kind::Enum { name: kind_name, variants } => {
                &&& name == kind_name@
                &&& variant_index < variants.len()
                &&& variant == variants[variant_index as int].name@
                &&& match variants[variant_index as int].shape {
                    VariantShape::Newtype(inner_kind) => conforms(*value, *inner_kind),
                    _ => false,
                }
            },
            _ => false,
        },
        SpecValue::Sequence(items) => match kind {
            Kind::Sequence(element) => conform_repeated(items, *element, items.len()),
            _ => false,
        },
        SpecValue::Tuple(items) => match kind {
            Kind::Tuple(kinds) => items.len() == kinds.len() && kinds.len() <= u32::MAX
                && conform_each(items, kinds, items.len()),
            _ => false,
        },
        SpecValue::TupleStruct { name, fields } => match kind {
            Kind::TupleStruct { name: kind_name, fields: kinds } => name == kind_name@
                && fields.len() == kinds.len() && kinds.len() <= u32::MAX && conform_each(
                fields,
                kinds,
                fields.len(),
            ),
            _ => false,
        },
        SpecValue::TupleVariant { name, variant_index, variant, fields } => match kind {
            Kind::Enum { name: kind_name, variants } => {
                &&& name == kind_name@
                &&& variant_index < variants.len()
                &&& variant == variants[variant_index as int].name@
                &&& match variants[variant_index as int].shape {
                    VariantShape::Tuple(kinds) => fields.len() == kinds.len() && kinds.len()
                        <= u32::MAX && conform_each(fields, kinds, fields.len()),
                    _ => false,
                }
            },
            _ => false,
        },
        SpecValue::Dictionary => false,
        SpecValue::Struct { name, fields } => match kind {
            Kind::Struct { name: kind_name, fields: kinds } => name == kind_name@ && fields.len()
                == kinds.len() && conform_fields(fields, kinds, fields.len()),
            _ => false,
        },
        SpecValue::StructVariant { name, variant_index, variant, fields } => match kind {
            Kind::Enum { name: kind_name, variants } => {
                &&& name == kind_name@
                &&& variant_index < variants.len()
                &&& variant == variants[variant_index as int].name@
                &&& match variants[variant_index as int].shape {
                    VariantShape::Struct(kinds) => fields.len() == kinds.len() && conform_fields(
                        fields,
                        kinds,
                        fields.len(),
                    ),
                    _ => false,
                }
            },
            _ => false,
        },
    }
}

/// Whether `bytes` hold `part` from `position` on.
pub open spec fn holds_at(bytes: Seq<u8>, position: int, part: Seq<u8>) -> bool {
    &&& 0 <= position
    &&& position + part.len() <= bytes.len()
    &&& bytes.subrange(position, position + part.len()) == part
}

/// Bytes that hold two parts in a row hold the first, and hold the second
/// behind it.
pub proof fn lemma_holds_both(bytes: Seq<u8>, position: int, first: Seq<u8>, second: Seq<u8>)
    requires
        holds_at(bytes, position, first + second),
    ensures
        holds_at(bytes, position, first),
        holds_at(bytes, position + first.len(), second),
{
    let whole = bytes.subrange(position, position + (first + second).len());
    assert(bytes.subrange(position, position + first.len()) =~= whole.subrange(
        0,
        first.len() as int,
    ));
    assert(whole.subrange(0, first.len() as int) =~= first);
    assert(bytes.subrange(position + first.len(), position + first.len() + second.len())
        =~= whole.subrange(first.len() as int, (first + second).len() as int));
    assert(whole.subrange(first.len() as int, (first + second).len() as int) =~= second);
}

/// A 32-bit slot that holds the bytes of a number decodes to the number.
pub proof fn lemma_decode_u32_at(bytes: Seq<u8>, position: int, value: u32, what: Seq<char>)
    requires
        holds_at(bytes, position, be_u32(value)),
    ensures
        decode_u32(bytes, position, what) == Decoded::ok(position + 4, value),
{
    lemma_u32_round_trip(value);
}

/// A 64-bit slot that holds the bytes of a number decodes to the number.
pub proof fn lemma_decode_u64_at(bytes: Seq<u8>, position: int, value: u64, what: Seq<char>)
    requires
        holds_at(bytes, position, be_u64(value)),
    ensures
        decode_u64(bytes, position, what) == Decoded::ok(position + 8, value),
{
    lemma_u64_round_trip(value);
}

/// Opaque data that was encoded decodes to the same data.
pub proof fn lemma_decode_opaque_at(bytes: Seq<u8>, position: int, data: Seq<u8>, what: Seq<char>)
    requires
        encode_opaque(data).error is None,
        holds_at(bytes, position, encode_opaque(data).bytes),
    ensures
        decode_opaque(bytes, position, what) == Decoded::ok(
            position + encode_opaque(data).bytes.len(),
            data,
        ),
{
    let length = data.len() as u32;
    let padding = zeros(pad4(data.len()));
    assert(encode_opaque(data).bytes =~= be_u32(length) + (data + padding));
    lemma_holds_both(bytes, position, be_u32(length), data + padding);
    lemma_holds_both(bytes, position + 4, data, padding);
    lemma_decode_u32_at(bytes, position, length, what);
}

/// The elements of a sequence that were encoded decode to the same
/// elements.
pub proof fn lemma_round_trip_repeated(
    items: Seq<SpecValue>,
    kind: Kind,
    count: nat,
    bytes: Seq<u8>,
    position: int,
    written_as: Seq<char>,
    read_as: Seq<char>,
)
    requires
        count <= items.len(),
        conform_repeated(items, kind, count),
        encode_elements(items, count, written_as).error is None,
        holds_at(bytes, position, encode_elements(items, count, written_as).bytes),
    ensures
        decode_repeated(bytes, position, kind, count, read_as) == Decoded::ok(
            position + encode_elements(items, count, written_as).bytes.len(),
            items.take(count as int),
        ),
    decreases items, count,
{
    if count == 0 {
        assert(items.take(0) =~= Seq::<SpecValue>::empty());
    } else {
        lemma_encode_elements_step(items, count, written_as);
        let before = encode_elements(items, (count - 1) as nat, written_as);
        let last = encode(items[count - 1]);
        lemma_holds_both(bytes, position, before.bytes, last.bytes);
        lemma_round_trip_repeated(
            items,
            kind,
            (count - 1) as nat,
            bytes,
            position,
            written_as,
            read_as,
        );
        lemma_round_trip(items[count - 1], kind, bytes, position + before.bytes.len());
        lemma_decode_repeated_step(bytes, position, kind, count, read_as);
        assert(items.take(count as int) =~= items.take(count - 1).push(items[count - 1]));
    }
}

/// The elements of a tuple that were encoded decode to the same elements.
pub proof fn lemma_round_trip_each(
    items: Seq<SpecValue>,
    kinds: Vec<Kind>,
    count: nat,
    bytes: Seq<u8>,
    position: int,
    written_as: Seq<char>,
    read_as: Seq<char>,
)
    requires
        count <= items.len(),
        count <= kinds@.len(),
        conform_each(items, kinds, count),
        encode_elements(items, count, written_as).error is None,
        holds_at(bytes, position, encode_elements(items, count, written_as).bytes),
    ensures
        decode_elements(bytes, position, kinds, count, read_as) == Decoded::ok(
            position + encode_elements(items, count, written_as).bytes.len(),
            items.take(count as int),
        ),
    decreases items, count,
{
    if count == 0 {
        assert(items.take(0) =~= Seq::<SpecValue>::empty());
    } else {
        lemma_encode_elements_step(items, count, written_as);
        let before = encode_elements(items, (count - 1) as nat, written_as);
        let last = encode(items[count - 1]);
        lemma_holds_both(bytes, position, before.bytes, last.bytes);
        lemma_round_trip_each(
            items,
            kinds,
            (count - 1) as nat,
            bytes,
            position,
            written_as,
            read_as,
        );
        lemma_round_trip(items[count - 1], kinds@[count - 1], bytes, position + before.bytes.len());
        lemma_decode_elements_step(bytes, position, kinds, count, read_as);
        assert(items.take(count as int) =~= items.take(count - 1).push(items[count - 1]));
    }
}

/// The fields of a struct that were encoded decode to the same fields.
pub proof fn lemma_round_trip_fields(
    fields: Seq<SpecField>,
    kinds: Vec<FieldKind>,
    count: nat,
    bytes: Seq<u8>,
    position: int,
    written_as: Seq<char>,
    read_as: Seq<char>,
)
    requires
        count <= fields.len(),
        count <= kinds@.len(),
        conform_fields(fields, kinds, count),
        encode_fields(fields, count, written_as).error is None,
        holds_at(bytes, position, encode_fields(fields, count, written_as).bytes),
    ensures
        decode_fields(bytes, position, kinds, count, read_as) == Decoded::ok(
            position + encode_fields(fields, count, written_as).bytes.len(),
            fields.take(count as int),
        ),
    decreases fields, count,
{
    if count == 0 {
        assert(fields.take(0) =~= Seq::<SpecField>::empty());
    } else {
        lemma_encode_fields_step(fields, count, written_as);
        let before = encode_fields(fields, (count - 1) as nat, written_as);
        let last = encode(fields[count - 1].value);
        lemma_holds_both(bytes, position, before.bytes, last.bytes);
        lemma_round_trip_fields(
            fields,
            kinds,
            (count - 1) as nat,
            bytes,
            position,
            written_as,
            read_as,
        );
        lemma_round_trip(
            fields[count - 1].value,
            kinds@[count - 1].kind,
            bytes,
            position + before.bytes.len(),
        );
        lemma_decode_fields_step(bytes, position, kinds, count, read_as);
        assert(fields.take(count as int) =~= fields.take(count - 1).push(fields[count - 1]));
    }
}

/// Round trip of a boolean, an unsigned number of at most 32 bits, a
/// single-precision number or a character.
#[verifier::rlimit(50)]
proof fn lemma_round_trip_word(value: SpecValue, kind: Kind, bytes: Seq<u8>, position: int)
    requires
        value is Bool || value is UnsignedInteger8 || value is UnsignedInteger16
            || value is UnsignedInteger32 || value is Float || value is Char,
        conforms(value, kind),
        encode(value).error is None,
        holds_at(bytes, position, encode(value).bytes),
    ensures
        decode(bytes, position, kind) == Decoded::ok(
            position + encode(value).bytes.len(),
            value,
        ),
    decreases value, 0nat,
{
    reveal(encode);
    reveal(decode);
    lemma2_to64();
    lemma2_to64_rest();
    match value {
        SpecValue::Bool(value) => {
            lemma_decode_u32_at(
                bytes,
                position,
                if value {
                    1u32
                } else {
                    0u32
                },
                "bool"@,
            );
        },
        SpecValue::UnsignedInteger8(value) => {
            lemma_decode_u32_at(bytes, position, value as u32, unsigned_what(8));
        },
        SpecValue::UnsignedInteger16(value) => {
            lemma_decode_u32_at(bytes, position, value as u32, unsigned_what(16));
        },
        SpecValue::UnsignedInteger32(value) => {
            lemma_decode_u32_at(bytes, position, value, unsigned_what(32));
        },
        SpecValue::Float(bits) => {
            lemma_decode_u32_at(bytes, position, bits, "float"@);
        },
        SpecValue::Char(value) => {
            char_is_scalar(value);
            char_u32_cast(value, value as u32);
            lemma_decode_u32_at(bytes, position, value as u32, "char"@);
        },
        _ => {},
    }
}

/// Round trip of a signed number of at most 32 bits.
#[verifier::rlimit(50)]
proof fn lemma_round_trip_signed_word(value: SpecValue, kind: Kind, bytes: Seq<u8>, position: int)
    requires
        value is Integer8 || value is Integer16 || value is Integer32,
        conforms(value, kind),
        encode(value).error is None,
        holds_at(bytes, position, encode(value).bytes),
    ensures
        decode(bytes, position, kind) == Decoded::ok(
            position + encode(value).bytes.len(),
            value,
        ),
    decreases value, 0nat,
{
    reveal(encode);
    reveal(decode);
    lemma2_to64();
    lemma2_to64_rest();
    match value {
        SpecValue::Integer8(value) => {
            lemma_i32_round_trip(value as i32);
            lemma_decode_u32_at(bytes, position, unsigned_of_i32(value as i32), signed_what(8));
        },
        SpecValue::Integer16(value) => {
            lemma_i32_round_trip(value as i32);
            lemma_decode_u32_at(bytes, position, unsigned_of_i32(value as i32), signed_what(16));
        },
        SpecValue::Integer32(value) => {
            lemma_i32_round_trip(value);
            lemma_decode_u32_at(bytes, position, unsigned_of_i32(value), signed_what(32));
        },
        _ => {},
    }
}

/// Round trip of a signed number of 64 bits.
#[verifier::rlimit(50)]
proof fn lemma_round_trip_integer64(value: SpecValue, kind: Kind, bytes: Seq<u8>, position: int)
    requires
        value is Integer64,
        conforms(value, kind),
        encode(value).error is None,
        holds_at(bytes, position, encode(value).bytes),
    ensures
        decode(bytes, position, kind) == Decoded::ok(
            position + encode(value).bytes.len(),
            value,
        ),
{
    reveal(encode);
    reveal(decode);
    match value {
        SpecValue::Integer64(value) => {
            lemma_i64_round_trip(value);
            lemma_decode_u64_at(
                bytes,
                position,
                unsigned_of_i64(value),
                "signed 64-bit integer"@,
            );
        },
        _ => {},
    }
}

/// Round trip of an unsigned number of 64 bits or a double-precision number.
#[verifier::rlimit(50)]
proof fn lemma_round_trip_double_word(value: SpecValue, kind: Kind, bytes: Seq<u8>, position: int)
    requires
        value is UnsignedInteger64 || value is Double,
        conforms(value, kind),
        encode(value).error is None,
        holds_at(bytes, position, encode(value).bytes),
    ensures
        decode(bytes, position, kind) == Decoded::ok(
            position + encode(value).bytes.len(),
            value,
        ),
{
    reveal(encode);
    reveal(decode);
    match value {
        SpecValue::UnsignedInteger64(value) => {
            lemma_decode_u64_at(bytes, position, value, "unsigned 64-bit integer"@);
        },
        SpecValue::Double(bits) => {
            lemma_decode_u64_at(bytes, position, bits, "double"@);
        },
        _ => {},
    }
}

/// Round trip of a string or opaque data.
#[verifier::rlimit(50)]
proof fn lemma_round_trip_opaque(value: SpecValue, kind: Kind, bytes: Seq<u8>, position: int)
    requires
        value is String || value is Bytes,
        conforms(value, kind),
        encode(value).error is None,
        holds_at(bytes, position, encode(value).bytes),
    ensures
        decode(bytes, position, kind) == Decoded::ok(
            position + encode(value).bytes.len(),
            value,
        ),
    decreases value, 0nat,
{
    reveal(encode);
    reveal(decode);
    match value {
        SpecValue::String(value) => {
            encode_utf8_valid_utf8(value);
            encode_utf8_decode_utf8(value);
            lemma_decode_opaque_at(bytes, position, encode_utf8(value), "string"@);
        },
        SpecValue::Bytes(value) => {
            lemma_decode_opaque_at(bytes, position, value, "opaque"@);
        },
        _ => {},
    }
}

/// Round trip of absent optional data, a unit or a unit struct.
#[verifier::rlimit(50)]
proof fn lemma_round_trip_empty(value: SpecValue, kind: Kind, bytes: Seq<u8>, position: int)
    requires
        value == SpecValue::Optional(None) || value is Unit || value is UnitStruct
            || value is Dictionary,
        conforms(value, kind),
        encode(value).error is None,
        holds_at(bytes, position, encode(value).bytes),
    ensures
        decode(bytes, position, kind) == Decoded::ok(
            position + encode(value).bytes.len(),
            value,
        ),
    decreases value, 0nat,
{
    reveal(encode);
    reveal(decode);
    match value {
        SpecValue::Optional(None) => {
            lemma_decode_u32_at(bytes, position, 0u32, "option"@);
        },
        _ => {},
    }
}

/// Round trip of present optional data.
#[verifier::rlimit(50)]
proof fn lemma_round_trip_optional(value: SpecValue, kind: Kind, bytes: Seq<u8>, position: int)
    requires
        value is Optional,
        value->Optional_0 is Some,
        conforms(value, kind),
        encode(value).error is None,
        holds_at(bytes, position, encode(value).bytes),
    ensures
        decode(bytes, position, kind) == Decoded::ok(
            position + encode(value).bytes.len(),
            value,
        ),
    decreases value, 0nat,
{
    reveal(encode);
    reveal(decode);
    match value {
        SpecValue::Optional(Some(inner)) => {
            let inner_kind = kind->Optional_0;
            lemma_holds_both(bytes, position, be_u32(1), encode(*inner).bytes);
            lemma_decode_u32_at(bytes, position, 1u32, "option"@);
            lemma_round_trip(*inner, *inner_kind, bytes, position + 4);
        },
        _ => {},
    }
}

/// Round trip of a struct with one unnamed field.
#[verifier::rlimit(50)]
proof fn lemma_round_trip_newtype_struct(
    value: SpecValue,
    kind: Kind,
    bytes: Seq<u8>,
    position: int,
)
    requires
        value is NewtypeStruct,
        conforms(value, kind),
        encode(value).error is None,
        holds_at(bytes, position, encode(value).bytes),
    ensures
        decode(bytes, position, kind) == Decoded::ok(
            position + encode(value).bytes.len(),
            value,
        ),
    decreases value, 0nat,
{
    reveal(encode);
    reveal(decode);
    match value {
        SpecValue::NewtypeStruct { name, value } => {
            let inner_kind = kind->NewtypeStruct_kind;
            lemma_round_trip(*value, *inner_kind, bytes, position);
        },
        _ => {},
    }
}

/// Round trip of a sequence.
#[verifier::rlimit(50)]
proof fn lemma_round_trip_sequence(value: SpecValue, kind: Kind, bytes: Seq<u8>, position: int)
    requires
        value is Sequence,
        conforms(value, kind),
        encode(value).error is None,
        holds_at(bytes, position, encode(value).bytes),
    ensures
        decode(bytes, position, kind) == Decoded::ok(
            position + encode(value).bytes.len(),
            value,
        ),
    decreases value, 0nat,
{
    reveal(encode);
    reveal(decode);
    match value {
        SpecValue::Sequence(items) => {
            let element = kind->Sequence_0;
            let elements = encode_elements(items, items.len(), "sequence"@);
            lemma_holds_both(bytes, position, be_u32(items.len() as u32), elements.bytes);
            lemma_decode_u32_at(bytes, position, items.len() as u32, "sequence"@);
            lemma_round_trip_repeated(
                items,
                *element,
                items.len(),
                bytes,
                position + 4,
                "sequence"@,
                "sequence"@,
            );
            assert(items.take(items.len() as int) =~= items);
        },
        _ => {},
    }
}

/// Round trip of a tuple.
#[verifier::rlimit(50)]
proof fn lemma_round_trip_tuple(value: SpecValue, kind: Kind, bytes: Seq<u8>, position: int)
    requires
        value is Tuple,
        conforms(value, kind),
        encode(value).error is None,
        holds_at(bytes, position, encode(value).bytes),
    ensures
        decode(bytes, position, kind) == Decoded::ok(
            position + encode(value).bytes.len(),
            value,
        ),
    decreases value, 0nat,
{
    reveal(encode);
    reveal(decode);
    match value {
        SpecValue::Tuple(items) => {
            let kinds = kind->Tuple_0;
            lemma_round_trip_each(
                items,
                kinds,
                items.len(),
                bytes,
                position,
                "tuple"@,
                "tuple"@,
            );
            assert(items.take(items.len() as int) =~= items);
        },
        _ => {},
    }
}

/// Round trip of a tuple struct.
#[verifier::rlimit(50)]
proof fn lemma_round_trip_tuple_struct(value: SpecValue, kind: Kind, bytes: Seq<u8>, position: int)
    requires
        value is TupleStruct,
        conforms(value, kind),
        encode(value).error is None,
        holds_at(bytes, position, encode(value).bytes),
    ensures
        decode(bytes, position, kind) == Decoded::ok(
            position + encode(value).bytes.len(),
            value,
        ),
    decreases value, 0nat,
{
    reveal(encode);
    reveal(decode);
    match value {
        SpecValue::TupleStruct { name, fields } => {
            let kinds = kind->TupleStruct_fields;
            lemma_round_trip_each(
                fields,
                kinds,
                fields.len(),
                bytes,
                position,
                crate::ser::encoding::tuple_struct_name(name),
                tuple_struct_name(name),
            );
            assert(fields.take(fields.len() as int) =~= fields);
        },
        _ => {},
    }
}

/// Round trip of a struct.
#[verifier::rlimit(50)]
proof fn lemma_round_trip_struct(value: SpecValue, kind: Kind, bytes: Seq<u8>, position: int)
    requires
        value is Struct,
        conforms(value, kind),
        encode(value).error is None,
        holds_at(bytes, position, encode(value).bytes),
    ensures
        decode(bytes, position, kind) == Decoded::ok(
            position + encode(value).bytes.len(),
            value,
        ),
    decreases value, 0nat,
{
    reveal(encode);
    reveal(decode);
    match value {
        SpecValue::Struct { name, fields } => {
            let kinds = kind->Struct_fields;
            lemma_round_trip_fields(fields, kinds, fields.len(), bytes, position, name, name);
            assert(fields.take(fields.len() as int) =~= fields);
        },
        _ => {},
    }
}

/// Round trip from the first byte: where a value of some kind was encoded,
/// decoding exactly those bytes as that kind gives the value back and
/// consumes them all.
pub proof fn lemma_decode_of_encode(value: SpecValue, kind: Kind)
    requires
        conforms(value, kind),
        encode(value).error is None,
    ensures
        decode(encode(value).bytes, 0, kind) == Decoded::ok(
            encode(value).bytes.len() as int,
            value,
        ),
{
    let bytes = encode(value).bytes;
    assert(bytes.subrange(0, bytes.len() as int) =~= bytes);
    lemma_round_trip(value, kind, bytes, 0);
}

/// A union of some kind is decoded as a union.
proof fn lemma_decode_as_enum(bytes: Seq<u8>, position: int, kind: Kind)
    requires
        kind is Enum,
    ensures
        decode(bytes, position, kind) == decode_enum(
            bytes,
            position,
            kind->Enum_name@,
            kind->Enum_variants,
        ),
{
    reveal(decode);
}

/// A discriminant that was encoded selects its variant.
proof fn lemma_decode_enum_selects(
    bytes: Seq<u8>,
    position: int,
    name: Seq<char>,
    variants: Vec<VariantKind>,
    index: u32,
)
    requires
        holds_at(bytes, position, be_u32(index)),
        index < variants@.len(),
    ensures
        decode_enum(bytes, position, name, variants) == decode_variant(
            bytes,
            position + 4,
            name,
            index,
            variants@[index as int],
        ),
{
    lemma_decode_u32_at(bytes, position, index, enum_what(name));
}

/// A variant with one unnamed value holds what its value decodes to.
proof fn lemma_decode_newtype_variant(
    bytes: Seq<u8>,
    position: int,
    name: Seq<char>,
    index: u32,
    variant: VariantKind,
    end: int,
    inner: SpecValue,
)
    requires
        variant.shape is Newtype,
        decode(bytes, position, *variant.shape->Newtype_0) == Decoded::ok(end, inner),
    ensures
        decode_variant(bytes, position, name, index, variant) == Decoded::ok(
            end,
            SpecValue::NewtypeVariant {
                name,
                variant_index: index,
                variant: variant.name@,
                value: Box::new(inner),
            },
        ),
{
    reveal(decode);
}

/// Round trip of a variant that holds nothing.
#[verifier::rlimit(50)]
proof fn lemma_round_trip_unit_variant(value: SpecValue, kind: Kind, bytes: Seq<u8>, position: int)
    requires
        value is UnitVariant,
        conforms(value, kind),
        encode(value).error is None,
        holds_at(bytes, position, encode(value).bytes),
    ensures
        decode(bytes, position, kind) == Decoded::ok(
            position + encode(value).bytes.len(),
            value,
        ),
    decreases value, 0nat,
{
    let index = value->UnitVariant_variant_index;
    lemma_encode_unit_variant(value);
    lemma_decode_as_enum(bytes, position, kind);
    lemma_decode_enum_selects(bytes, position, kind->Enum_name@, kind->Enum_variants, index);
}

/// Round trip of a variant with one unnamed value.
#[verifier::rlimit(50)]
proof fn lemma_round_trip_newtype_variant(
    value: SpecValue,
    kind: Kind,
    bytes: Seq<u8>,
    position: int,
)
    requires
        value is NewtypeVariant,
        conforms(value, kind),
        encode(value).error is None,
        holds_at(bytes, position, encode(value).bytes),
    ensures
        decode(bytes, position, kind) == Decoded::ok(
            position + encode(value).bytes.len(),
            value,
        ),
    decreases value, 0nat,
{
    let index = value->NewtypeVariant_variant_index;
    let inner = *value->NewtypeVariant_value;
    let variants = kind->Enum_variants;
    let variant = variants@[index as int];
    lemma_encode_newtype_variant(value);
    lemma_holds_both(bytes, position, be_u32(index), encode(inner).bytes);
    lemma_decode_as_enum(bytes, position, kind);
    lemma_decode_enum_selects(bytes, position, kind->Enum_name@, variants, index);
    lemma_round_trip(inner, *variant.shape->Newtype_0, bytes, position + 4);
    lemma_decode_newtype_variant(
        bytes,
        position + 4,
        kind->Enum_name@,
        index,
        variant,
        position + 4 + encode(inner).bytes.len(),
        inner,
    );
}

/// Round trip of a variant with unnamed values.
#[verifier::rlimit(50)]
proof fn lemma_round_trip_tuple_variant(value: SpecValue, kind: Kind, bytes: Seq<u8>, position: int)
    requires
        value is TupleVariant,
        conforms(value, kind),
        encode(value).error is None,
        holds_at(bytes, position, encode(value).bytes),
    ensures
        decode(bytes, position, kind) == Decoded::ok(
            position + encode(value).bytes.len(),
            value,
        ),
    decreases value, 0nat,
{
    let index = value->TupleVariant_variant_index;
    let fields = value->TupleVariant_fields;
    let variants = kind->Enum_variants;
    let variant = variants@[index as int];
    let written_as = crate::ser::encoding::tuple_variant_name(
        value->TupleVariant_name,
        value->TupleVariant_variant,
    );
    lemma_encode_tuple_variant(value);
    lemma_holds_both(
        bytes,
        position,
        be_u32(index),
        encode_elements(fields, fields.len(), written_as).bytes,
    );
    lemma_decode_as_enum(bytes, position, kind);
    lemma_decode_enum_selects(bytes, position, kind->Enum_name@, variants, index);
    lemma_round_trip_each(
        fields,
        variant.shape->Tuple_0,
        fields.len(),
        bytes,
        position + 4,
        written_as,
        "tuple"@,
    );
    assert(fields.take(fields.len() as int) =~= fields);
}

/// Round trip of a variant with named fields.
#[verifier::rlimit(50)]
proof fn lemma_round_trip_struct_variant(
    value: SpecValue,
    kind: Kind,
    bytes: Seq<u8>,
    position: int,
)
    requires
        value is StructVariant,
        conforms(value, kind),
        encode(value).error is None,
        holds_at(bytes, position, encode(value).bytes),
    ensures
        decode(bytes, position, kind) == Decoded::ok(
            position + encode(value).bytes.len(),
            value,
        ),
    decreases value, 0nat,
{
    let index = value->StructVariant_variant_index;
    let fields = value->StructVariant_fields;
    let variants = kind->Enum_variants;
    let variant = variants@[index as int];
    let written_as = crate::ser::encoding::struct_variant_name(
        value->StructVariant_name,
        value->StructVariant_variant,
    );
    lemma_encode_struct_variant(value);
    lemma_holds_both(
        bytes,
        position,
        be_u32(index),
        encode_fields(fields, fields.len(), written_as).bytes,
    );
    lemma_decode_as_enum(bytes, position, kind);
    lemma_decode_enum_selects(bytes, position, kind->Enum_name@, variants, index);
    lemma_round_trip_fields(
        fields,
        variant.shape->Struct_0,
        fields.len(),
        bytes,
        position + 4,
        written_as,
        value->StructVariant_variant,
    );
    assert(fields.take(fields.len() as int) =~= fields);
}

/// Round trip: where a value of some kind was encoded, decoding the bytes
/// as that kind gives the value back, and stops behind its last byte.
pub proof fn lemma_round_trip(value: SpecValue, kind: Kind, bytes: Seq<u8>, position: int)
    requires
        conforms(value, kind),
        encode(value).error is None,
        holds_at(bytes, position, encode(value).bytes),
    ensures
        decode(bytes, position, kind) == Decoded::ok(
            position + encode(value).bytes.len(),
            value,
        ),
    decreases value, 1nat,
{
    match value {
        SpecValue::Bool(_) => lemma_round_trip_word(value, kind, bytes, position),
        SpecValue::Integer8(_) => lemma_round_trip_signed_word(value, kind, bytes, position),
        SpecValue::Integer16(_) => lemma_round_trip_signed_word(value, kind, bytes, position),
        SpecValue::Integer32(_) => lemma_round_trip_signed_word(value, kind, bytes, position),
        SpecValue::Integer64(_) => lemma_round_trip_integer64(value, kind, bytes, position),
        SpecValue::UnsignedInteger8(_) => lemma_round_trip_word(value, kind, bytes, position),
        SpecValue::UnsignedInteger16(_) => lemma_round_trip_word(value, kind, bytes, position),
        SpecValue::UnsignedInteger32(_) => lemma_round_trip_word(value, kind, bytes, position),
        SpecValue::UnsignedInteger64(_) => lemma_round_trip_double_word(
            value,
            kind,
            bytes,
            position,
        ),
        SpecValue::Float(_) => lemma_round_trip_word(value, kind, bytes, position),
        SpecValue::Double(_) => lemma_round_trip_double_word(value, kind, bytes, position),
        SpecValue::Char(_) => lemma_round_trip_word(value, kind, bytes, position),
        SpecValue::String(_) => lemma_round_trip_opaque(value, kind, bytes, position),
        SpecValue::Bytes(_) => lemma_round_trip_opaque(value, kind, bytes, position),
        SpecValue::Optional(None) => lemma_round_trip_empty(value, kind, bytes, position),
        SpecValue::Optional(Some(_)) => lemma_round_trip_optional(value, kind, bytes, position),
        SpecValue::Unit => lemma_round_trip_empty(value, kind, bytes, position),
        SpecValue::UnitStruct { .. } => lemma_round_trip_empty(value, kind, bytes, position),
        SpecValue::UnitVariant { .. } => lemma_round_trip_unit_variant(
            value,
            kind,
            bytes,
            position,
        ),
        SpecValue::NewtypeStruct { .. } => lemma_round_trip_newtype_struct(
            value,
            kind,
            bytes,
            position,
        ),
        SpecValue::NewtypeVariant { .. } => lemma_round_trip_newtype_variant(
            value,
            kind,
            bytes,
            position,
        ),
        SpecValue::Sequence(_) => lemma_round_trip_sequence(value, kind, bytes, position),
        SpecValue::Tuple(_) => lemma_round_trip_tuple(value, kind, bytes, position),
        SpecValue::TupleStruct { .. } => lemma_round_trip_tuple_struct(
            value,
            kind,
            bytes,
            position,
        ),
        SpecValue::TupleVariant { .. } => lemma_round_trip_tuple_variant(
            value,
            kind,
            bytes,
            position,
        ),
        SpecValue::Dictionary => lemma_round_trip_empty(value, kind, bytes, position),
        SpecValue::Struct { .. } => lemma_round_trip_struct(value, kind, bytes, position),
        SpecValue::StructVariant { .. } => lemma_round_trip_struct_variant(
            value,
            kind,
            bytes,
            position,
        ),
    }
}

} // verus!
