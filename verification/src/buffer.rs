//! Byte buffers of the `bytes` crate and what is relied upon about them.
use bytes::{Buf, Bytes};
use vstd::prelude::*;

verus! {

/// The buffer type `bytes::Bytes`, opaque to the verifier.
#[verifier::external_type_specification]
#[verifier::external_body]
pub struct ExBytes(bytes::Bytes);

/// The bytes that a buffer still holds, first to last.
pub uninterp spec fn bytes_contents(buffer: Bytes) -> Seq<u8>;

/// Calls `Bytes::new`: the buffer that holds nothing.
#[verifier::external_body]
pub(crate) fn bytes_new() -> (buffer: Bytes)
    ensures
        bytes_contents(buffer) == Seq::<u8>::empty(),
{
    Bytes::new()
}

/// Calls `<Bytes as From<Vec<u8>>>::from`: the buffer holds the bytes of the vector.
#[verifier::external_body]
pub(crate) fn bytes_from_vec(data: Vec<u8>) -> (buffer: Bytes)
    ensures
        bytes_contents(buffer) == data@,
{
    Bytes::from(data)
}

/// Calls `Buf::has_remaining` on a `Bytes`: whether it still holds a byte.
#[verifier::external_body]
pub(crate) fn bytes_has_remaining(buffer: &Bytes) -> (remaining: bool)
    ensures
        remaining == (bytes_contents(*buffer).len() > 0),
{
    buffer.has_remaining()
}

/// Calls `<Bytes as Deref>::deref`: a view of all the bytes that the buffer holds.
#[verifier::external_body]
pub(crate) fn bytes_as_slice(buffer: &Bytes) -> (slice: &[u8])
    ensures
        slice@ == bytes_contents(*buffer),
{
    buffer
}

/// Calls `Buf::advance` on a `Bytes`: drops the first `count` bytes. The outside
/// function panics when the buffer holds fewer.
#[verifier::external_body]
pub(crate) fn bytes_advance(buffer: &mut Bytes, count: usize)
    requires
        count <= bytes_contents(*old(buffer)).len(),
    ensures
        bytes_contents(*final(buffer)) == bytes_contents(*old(buffer)).skip(count as int),
{
    buffer.advance(count)
}

/// The hexadecimal digit, in lower case, for a number below sixteen.
pub open spec fn hex_digit(n: u8) -> char {
    if n < 10 {
        (48 + n) as char
    } else {
        (87 + n) as char
    }
}

/// How a byte is written within a byte string literal: with the short escape that it has,
/// as it is if it is printable, or as two hexadecimal digits.
pub open spec fn byte_literal(byte: u8) -> Seq<char> {
    if byte == 10 {
        seq!['\\', 'n']
    } else if byte == 13 {
        seq!['\\', 'r']
    } else if byte == 9 {
        seq!['\\', 't']
    } else if byte == 92 || byte == 34 {
        seq!['\\', byte as char]
    } else if byte == 0 {
        seq!['\\', '0']
    } else if 0x20 <= byte < 0x7f {
        seq![byte as char]
    } else {
        seq!['\\', 'x', hex_digit((byte / 16) as u8), hex_digit((byte % 16) as u8)]
    }
}

/// How bytes are written within a byte string literal, one after the other.
pub open spec fn bytes_escaped(bytes: Seq<u8>) -> Seq<char>
    decreases bytes.len(),
{
    if bytes.len() == 0 {
        seq![]
    } else {
        bytes_escaped(bytes.drop_last()) + byte_literal(bytes.last())
    }
}

/// The byte string literal for `bytes`.
pub open spec fn bytes_literal(bytes: Seq<u8>) -> Seq<char> {
    seq!['b', '"'] + bytes_escaped(bytes) + seq!['"']
}

/// Formats a buffer with `<Bytes as Debug>::fmt`: the result is the byte string literal for
/// the bytes that the buffer holds.
#[verifier::external_body]
pub(crate) fn write_bytes_debug(buffer: &Bytes) -> (literal: String)
    ensures
        literal@ == bytes_literal(bytes_contents(*buffer)),
{
    format!("{:?}", buffer)
}

/// Leaves an empty buffer behind and returns the one that was there.
pub(crate) fn bytes_take(buffer: &mut Bytes) -> (taken: Bytes)
    ensures
        taken == *old(buffer),
        bytes_contents(*final(buffer)) == Seq::<u8>::empty(),
{
    let mut taken = bytes_new();
    std::mem::swap(&mut taken, buffer);
    taken
}

} // verus!
