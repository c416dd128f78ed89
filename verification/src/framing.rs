//! Byte-level framing of XDR: big-endian slots of four and eight bytes, and
//! the padding that keeps every item a multiple of four bytes long.

use byteorder::{BigEndian, ByteOrder};
use vstd::arithmetic::div_mod::lemma_fundamental_div_mod_converse;
use vstd::prelude::*;

verus! {

/// Number of zero bytes that follow a payload of `length` bytes.
pub open spec fn pad4(length: nat) -> nat {
    ((4 - length % 4) % 4) as nat
}

/// `count` zero bytes.
pub open spec fn zeros(count: nat) -> Seq<u8> {
    Seq::new(count, |i: int| 0u8)
}

/// The four bytes of `value`, most significant first.
pub open spec fn be_u32(value: u32) -> Seq<u8> {
    seq![
        (value / 0x100_0000) as u8,
        (value / 0x1_0000 % 0x100) as u8,
        (value / 0x100 % 0x100) as u8,
        (value % 0x100) as u8,
    ]
}

/// The number whose big-endian bytes are the first four of `bytes`.
pub open spec fn u32_of_be(bytes: Seq<u8>) -> u32
    recommends
        bytes.len() >= 4,
{
    (bytes[0] * 0x100_0000 + bytes[1] * 0x1_0000 + bytes[2] * 0x100 + bytes[3]) as u32
}

/// The eight bytes of `value`, most significant first.
pub open spec fn be_u64(value: u64) -> Seq<u8> {
    be_u32((value / 0x1_0000_0000) as u32) + be_u32((value % 0x1_0000_0000) as u32)
}

/// The number whose big-endian bytes are the first eight of `bytes`.
pub open spec fn u64_of_be(bytes: Seq<u8>) -> u64
    recommends
        bytes.len() >= 8,
{
    (u32_of_be(bytes.subrange(0, 4)) * 0x1_0000_0000 + u32_of_be(bytes.subrange(4, 8))) as u64
}

/// Two's complement of a 32-bit signed number, as an unsigned one.
pub open spec fn unsigned_of_i32(value: i32) -> u32 {
    if value < 0 {
        (value + 0x1_0000_0000) as u32
    } else {
        value as u32
    }
}

/// The signed number that a 32-bit slot holds in two's complement.
pub open spec fn i32_of_unsigned(value: u32) -> i32 {
    if value >= 0x8000_0000 {
        (value - 0x1_0000_0000) as i32
    } else {
        value as i32
    }
}

/// Two's complement of a 64-bit signed number, as an unsigned one.
pub open spec fn unsigned_of_i64(value: i64) -> u64 {
    if value < 0 {
        (value + 0x1_0000_0000_0000_0000) as u64
    } else {
        value as u64
    }
}

/// The signed number that a 64-bit slot holds in two's complement.
pub open spec fn i64_of_unsigned(value: u64) -> i64 {
    if value >= 0x8000_0000_0000_0000 {
        (value - 0x1_0000_0000_0000_0000) as i64
    } else {
        value as i64
    }
}

/// The four bytes of a signed number in two's complement, most significant first.
pub open spec fn be_i32(value: i32) -> Seq<u8> {
    be_u32(unsigned_of_i32(value))
}

/// The eight bytes of a signed number in two's complement, most significant first.
pub open spec fn be_i64(value: i64) -> Seq<u8> {
    be_u64(unsigned_of_i64(value))
}

/// Reading back the bytes of a 32-bit number gives the number.
pub proof fn lemma_u32_round_trip(value: u32)
    ensures
        be_u32(value).len() == 4,
        u32_of_be(be_u32(value)) == value,
{
}

/// Writing the number read from four bytes gives the four bytes.
pub proof fn lemma_u32_bytes_round_trip(bytes: Seq<u8>)
    requires
        bytes.len() == 4,
    ensures
        be_u32(u32_of_be(bytes)) == bytes,
{
    let b0 = bytes[0] as int;
    let b1 = bytes[1] as int;
    let b2 = bytes[2] as int;
    let b3 = bytes[3] as int;
    let value = b0 * 0x100_0000 + b1 * 0x1_0000 + b2 * 0x100 + b3;
    assert(u32_of_be(bytes) == value);
    lemma_fundamental_div_mod_converse(value, 0x100_0000, b0, b1 * 0x1_0000 + b2 * 0x100 + b3);
    lemma_fundamental_div_mod_converse(value, 0x1_0000, b0 * 0x100 + b1, b2 * 0x100 + b3);
    lemma_fundamental_div_mod_converse(b0 * 0x100 + b1, 0x100, b0, b1);
    lemma_fundamental_div_mod_converse(value, 0x100, b0 * 0x1_0000 + b1 * 0x100 + b2, b3);
    lemma_fundamental_div_mod_converse(b0 * 0x1_0000 + b1 * 0x100 + b2, 0x100, b0 * 0x100 + b1, b2);
    assert(be_u32(u32_of_be(bytes)) =~= bytes);
}

/// Reading back the bytes of a 64-bit number gives the number.
pub proof fn lemma_u64_round_trip(value: u64)
    ensures
        be_u64(value).len() == 8,
        u64_of_be(be_u64(value)) == value,
{
    let high = (value / 0x1_0000_0000) as u32;
    let low = (value % 0x1_0000_0000) as u32;
    lemma_u32_round_trip(high);
    lemma_u32_round_trip(low);
    assert(be_u64(value).subrange(0, 4) =~= be_u32(high));
    assert(be_u64(value).subrange(4, 8) =~= be_u32(low));
}

/// Two's complement loses nothing of a 32-bit number.
pub proof fn lemma_i32_round_trip(value: i32)
    ensures
        i32_of_unsigned(unsigned_of_i32(value)) == value,
        u32_of_be(be_i32(value)) == unsigned_of_i32(value),
{
    lemma_u32_round_trip(unsigned_of_i32(value));
}

/// Two's complement loses nothing of a 64-bit number.
pub proof fn lemma_i64_round_trip(value: i64)
    ensures
        i64_of_unsigned(unsigned_of_i64(value)) == value,
        u64_of_be(be_i64(value)) == unsigned_of_i64(value),
{
    lemma_u64_round_trip(unsigned_of_i64(value));
}

/// A payload and its padding end on a multiple of four bytes.
pub proof fn lemma_padded_length_aligned(length: nat)
    ensures
        pad4(length) < 4,
        (length + pad4(length)) % 4 == 0,
{
}

/// Number of zero bytes to write after a payload of `length` bytes.
pub fn padding_size(length: usize) -> (padding: usize)
    ensures
        padding == pad4(length as nat),
{
    (4 - length % 4) % 4
}

/// Calls `byteorder::BigEndian::write_u32` on a buffer of four bytes. The
/// contract claims that the buffer then holds the number's bytes, most
/// significant first.
#[verifier::external_body]
pub(crate) fn write_u32(value: u32) -> (bytes: [u8; 4])
    ensures
        bytes@ == be_u32(value),
{
    let mut bytes = [0u8; 4];
    BigEndian::write_u32(&mut bytes, value);
    bytes
}

/// Calls `byteorder::BigEndian::write_i32` on a buffer of four bytes. The
/// contract claims that the buffer then holds the number in two's
/// complement, most significant byte first.
#[verifier::external_body]
pub(crate) fn write_i32(value: i32) -> (bytes: [u8; 4])
    ensures
        bytes@ == be_i32(value),
{
    let mut bytes = [0u8; 4];
    BigEndian::write_i32(&mut bytes, value);
    bytes
}

/// Calls `byteorder::BigEndian::write_u64` on a buffer of eight bytes. The
/// contract claims that the buffer then holds the number's bytes, most
/// significant first.
#[verifier::external_body]
pub(crate) fn write_u64(value: u64) -> (bytes: [u8; 8])
    ensures
        bytes@ == be_u64(value),
{
    let mut bytes = [0u8; 8];
    BigEndian::write_u64(&mut bytes, value);
    bytes
}

/// Calls `byteorder::BigEndian::write_i64` on a buffer of eight bytes. The
/// contract claims that the buffer then holds the number in two's
/// complement, most significant byte first.
#[verifier::external_body]
pub(crate) fn write_i64(value: i64) -> (bytes: [u8; 8])
    ensures
        bytes@ == be_i64(value),
{
    let mut bytes = [0u8; 8];
    BigEndian::write_i64(&mut bytes, value);
    bytes
}

/// Calls `byteorder::BigEndian::read_u32`, which panics on fewer than four
/// bytes. The contract claims that it returns the number whose bytes, most
/// significant first, are the first four of the slice.
#[verifier::external_body]
pub(crate) fn read_u32(bytes: &[u8]) -> (value: u32)
    requires
        bytes@.len() >= 4,
    ensures
        value == u32_of_be(bytes@),
{
    BigEndian::read_u32(bytes)
}

/// Calls `byteorder::BigEndian::read_i32`, which panics on fewer than four
/// bytes. The contract claims that it returns the first four bytes read as
/// a number in two's complement, most significant byte first.
#[verifier::external_body]
pub(crate) fn read_i32(bytes: &[u8]) -> (value: i32)
    requires
        bytes@.len() >= 4,
    ensures
        value == i32_of_unsigned(u32_of_be(bytes@)),
{
    BigEndian::read_i32(bytes)
}

/// Calls `byteorder::BigEndian::read_u64`, which panics on fewer than eight
/// bytes. The contract claims that it returns the number whose bytes, most
/// significant first, are the first eight of the slice.
#[verifier::external_body]
pub(crate) fn read_u64(bytes: &[u8]) -> (value: u64)
    requires
        bytes@.len() >= 8,
    ensures
        value == u64_of_be(bytes@),
{
    BigEndian::read_u64(bytes)
}

/// Calls `byteorder::BigEndian::read_i64`, which panics on fewer than eight
/// bytes. The contract claims that it returns the first eight bytes read as
/// a number in two's complement, most significant byte first.
#[verifier::external_body]
pub(crate) fn read_i64(bytes: &[u8]) -> (value: i64)
    requires
        bytes@.len() >= 8,
    ensures
        value == i64_of_unsigned(u64_of_be(bytes@)),
{
    BigEndian::read_i64(bytes)
}

} // verus!
