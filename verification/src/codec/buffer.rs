//! The byte buffer that frames are written to and read from, and the
//! big-endian number at the head of a frame.

use vstd::prelude::*;
use byteorder::{BigEndian, ByteOrder};
use bytes::{BufMut, BytesMut};

verus! {

/// The growable byte buffer `bytes::BytesMut`.
#[verifier::external_type_specification]
#[verifier::external_body]
pub struct ExBytesMut(bytes::BytesMut);

/// The bytes that a buffer holds, first to last.
pub uninterp spec fn buffered(buf: BytesMut) -> Seq<u8>;

/// The four bytes of a number, most significant first.
pub open spec fn be32(n: u32) -> Seq<u8> {
    seq![
        (n >> 24) as u8,
        ((n >> 16) & 0xff) as u8,
        ((n >> 8) & 0xff) as u8,
        (n & 0xff) as u8,
    ]
}

/// The number whose bytes, most significant first, are `b0` to `b3`.
pub open spec fn be32_value(b0: u8, b1: u8, b2: u8, b3: u8) -> u32 {
    ((b0 as u32) << 24) | ((b1 as u32) << 16) | ((b2 as u32) << 8) | (b3 as u32)
}

/// The number that the first four bytes of `bytes` spell, most significant
/// first.
pub open spec fn be32_head(bytes: Seq<u8>) -> u32
    recommends
        bytes.len() >= 4,
{
    be32_value(bytes[0], bytes[1], bytes[2], bytes[3])
}

/// The largest number of bytes that a buffer is asked to hold.
pub open spec fn max_buffered() -> int {
    (usize::MAX / 2) as int
}

/// Calls `BytesMut::new`: the new buffer holds no byte.
#[verifier::external_body]
pub(crate) fn buffer_new() -> (buf: BytesMut)
    ensures
        buffered(buf) == Seq::<u8>::empty(),
{
    BytesMut::new()
}

/// Calls `BytesMut::from` on a slice: the new buffer holds a copy of the
/// bytes of the slice.
#[verifier::external_body]
pub(crate) fn buffer_from(bytes: &[u8]) -> (buf: BytesMut)
    ensures
        buffered(buf) == bytes@,
{
    BytesMut::from(bytes)
}

/// Calls `BytesMut::len`: the number of bytes that the buffer holds.
#[verifier::external_body]
pub(crate) fn buffer_len(buf: &BytesMut) -> (n: usize)
    ensures
        n == buffered(*buf).len(),
{
    buf.len()
}

/// Calls `BytesMut::reserve`, which makes room and leaves the bytes as they
/// are. It panics where the capacity asked for is beyond what can be
/// allocated, so the sum is bounded.
#[verifier::external_body]
pub(crate) fn buffer_reserve(buf: &mut BytesMut, additional: usize)
    requires
        buffered(*old(buf)).len() + additional <= max_buffered(),
    ensures
        buffered(*final(buf)) == buffered(*old(buf)),
{
    buf.reserve(additional)
}

/// Calls `BufMut::put_u32` of `BytesMut`: the four bytes of the number are
/// appended, most significant first.
#[verifier::external_body]
pub(crate) fn buffer_put_u32(buf: &mut BytesMut, n: u32)
    requires
        buffered(*old(buf)).len() + 4 <= max_buffered(),
    ensures
        buffered(*final(buf)) == buffered(*old(buf)) + be32(n),
{
    buf.put_u32(n)
}

/// Calls `BufMut::put_slice` of `BytesMut`: the bytes of the slice are
/// appended.
#[verifier::external_body]
pub(crate) fn buffer_put(buf: &mut BytesMut, src: &[u8])
    requires
        buffered(*old(buf)).len() + src@.len() <= max_buffered(),
    ensures
        buffered(*final(buf)) == buffered(*old(buf)) + src@,
{
    buf.put_slice(src)
}

/// Calls `BytesMut::split_to`: the first `at` bytes leave the buffer and are
/// returned as a buffer of their own; the rest stay. It panics where `at` is
/// beyond the length.
#[verifier::external_body]
pub(crate) fn buffer_split_to(buf: &mut BytesMut, at: usize) -> (head: BytesMut)
    requires
        at <= buffered(*old(buf)).len(),
    ensures
        buffered(head) == buffered(*old(buf)).subrange(0, at as int),
        buffered(*final(buf)) == buffered(*old(buf)).subrange(
            at as int,
            buffered(*old(buf)).len() as int,
        ),
{
    buf.split_to(at)
}

/// Copies the bytes of a buffer into a vector, through the slice that
/// `BytesMut` dereferences to.
#[verifier::external_body]
pub(crate) fn buffer_to_vec(buf: &BytesMut) -> (v: Vec<u8>)
    ensures
        v@ == buffered(*buf),
{
    buf.to_vec()
}

/// Calls `byteorder::BigEndian::read_u32` on the bytes of a buffer: the
/// number that its first four bytes spell, most significant first. It panics
/// on fewer than four bytes.
#[verifier::external_body]
pub(crate) fn buffer_read_u32(buf: &BytesMut) -> (n: u32)
    requires
        buffered(*buf).len() >= 4,
    ensures
        n == be32_head(buffered(*buf)),
{
    BigEndian::read_u32(buf.as_ref())
}

/// A number is read back from its four bytes.
pub proof fn lemma_be32_round_trip(n: u32)
    ensures
        be32(n).len() == 4,
        be32_head(be32(n)) == n,
{
    let b0 = (n >> 24) as u8;
    let b1 = ((n >> 16) & 0xff) as u8;
    let b2 = ((n >> 8) & 0xff) as u8;
    let b3 = (n & 0xff) as u8;
    assert(be32_value(b0, b1, b2, b3) == n) by (bit_vector)
        requires
            b0 == (n >> 24) as u8,
            b1 == ((n >> 16) & 0xff) as u8,
            b2 == ((n >> 8) & 0xff) as u8,
            b3 == (n & 0xff) as u8,
    ;
}

} // verus!
