//! Frames: a payload behind its length as four big-endian bytes.

use vstd::prelude::*;
use bytes::BytesMut;
use crate::codec::buffer::{
    be32, be32_head, buffer_from, buffer_len, buffer_new, buffer_put, buffer_put_u32,
    buffer_read_u32, buffer_reserve, buffer_split_to, buffer_to_vec, buffered,
    lemma_be32_round_trip, max_buffered,
};
use crate::codec::error::CodecError;

verus! {

/// Number of bytes of the length prefix.
pub const LEN_SZ: usize = 4;

/// The frame of a payload: its length as four big-endian bytes, then the
/// payload.
pub open spec fn frame(payload: Seq<u8>) -> Seq<u8>
    recommends
        payload.len() <= u32::MAX,
{
    be32(payload.len() as u32) + payload
}

/// The payload of the frame at the head of `buf`, or `None` where `buf` does
/// not hold a whole frame yet.
pub open spec fn deframe(buf: Seq<u8>) -> Option<Seq<u8>> {
    if buf.len() < 4 {
        None
    } else if buf.len() < 4 + be32_head(buf) {
        None
    } else {
        Some(buf.subrange(4, 4 + be32_head(buf)))
    }
}

/// True where a frame for `payload_len` bytes can be appended to a buffer
/// that holds `held` bytes: the length fits the prefix and the buffer stays
/// within what can be allocated.
pub open spec fn frame_fits(payload_len: int, held: int) -> bool {
    payload_len <= u32::MAX && held + 4 + payload_len <= max_buffered()
}

/// Appends the frame of `payload` to `dst`. Fails, and leaves `dst` as it
/// is, exactly where the frame does not fit.
pub fn encode_impl(payload: &[u8], dst: &mut BytesMut) -> (r: Result<(), CodecError>)
    ensures
        frame_fits(payload@.len() as int, buffered(*old(dst)).len() as int) ==> r is Ok
            && buffered(*final(dst)) == buffered(*old(dst)) + frame(payload@),
        !frame_fits(payload@.len() as int, buffered(*old(dst)).len() as int) ==> r is Err
            && r->Err_0.spec_message() == "frame too large"@ && buffered(*final(dst)) == buffered(
            *old(dst),
        ),
{
    let held = buffer_len(dst);
    let limit: usize = usize::MAX / 2;
    if payload.len() > 0xffff_ffff || held > limit || limit - held < 4 || limit - held - 4
        < payload.len() {
        return Err(CodecError::new("frame too large"));
    }
    let ghost before = buffered(*dst);
    buffer_reserve(dst, LEN_SZ + payload.len());
    buffer_put_u32(dst, payload.len() as u32);
    buffer_put(dst, payload);
    assert(buffered(*dst) =~= before + frame(payload@));
    Ok(())
}

/// Takes the frame at the head of `src` out of it and returns its payload.
/// Where `src` does not hold a whole frame yet, returns `None` and leaves
/// `src` as it is.
pub fn decode_impl(src: &mut BytesMut) -> (r: Option<Vec<u8>>)
    ensures
        match deframe(buffered(*old(src))) {
            Some(payload) => r is Some && r->0@ == payload && buffered(*final(src)) == buffered(
                *old(src),
            ).subrange(4 + payload.len() as int, buffered(*old(src)).len() as int),
            None => r is None && buffered(*final(src)) == buffered(*old(src)),
        },
{
    let ghost before = buffered(*src);
    let held = buffer_len(src);
    if held < LEN_SZ {
        return None;
    }
    let size = buffer_read_u32(src) as usize;
    if held - LEN_SZ < size {
        return None;
    }
    let _ = buffer_split_to(src, LEN_SZ);
    let item = buffer_split_to(src, size);
    let payload = buffer_to_vec(&item);
    assert(payload@ =~= before.subrange(4, 4 + size));
    assert(buffered(*src) =~= before.subrange(4 + size, before.len() as int));
    Some(payload)
}

/// The frame of a payload. Fails exactly where the payload is too long for
/// the length prefix or the frame for a buffer.
pub fn encode(payload: &[u8]) -> (r: Result<Vec<u8>, CodecError>)
    ensures
        frame_fits(payload@.len() as int, 0) ==> r is Ok && r->Ok_0@ == frame(payload@),
        !frame_fits(payload@.len() as int, 0) ==> r is Err && r->Err_0.spec_message()
            == "frame too large"@,
{
    let mut bytes = buffer_new();
    match encode_impl(payload, &mut bytes) {
        Ok(()) => {
            let out = buffer_to_vec(&bytes);
            assert(out@ =~= frame(payload@));
            Ok(out)
        },
        Err(e) => Err(e),
    }
}

/// The payload of the frame at the head of `value`, or `None` where `value`
/// does not hold a whole frame yet.
pub fn decode(value: &[u8]) -> (r: Option<Vec<u8>>)
    ensures
        match deframe(value@) {
            Some(payload) => r is Some && r->0@ == payload,
            None => r is None,
        },
{
    let mut bytes = buffer_from(value);
    decode_impl(&mut bytes)
}

/// A frame read back gives the payload and is used up to its last byte:
/// 4 bytes and as many as the payload has. Any bytes behind the frame do not
/// change what is read.
pub proof fn law_frame_round_trip(payload: Seq<u8>, rest: Seq<u8>)
    requires
        payload.len() <= u32::MAX,
    ensures
        frame(payload).len() == 4 + payload.len(),
        deframe(frame(payload)) == Some(payload),
        deframe(frame(payload) + rest) == Some(payload),
        (frame(payload) + rest).subrange(
            4 + payload.len() as int,
            (frame(payload) + rest).len() as int,
        )
            == rest,
{
    let n = payload.len() as u32;
    lemma_be32_round_trip(n);
    let f = frame(payload);
    let g = f + rest;
    assert(f[0] == be32(n)[0] && f[1] == be32(n)[1] && f[2] == be32(n)[2] && f[3] == be32(n)[3]);
    assert(g[0] == f[0] && g[1] == f[1] && g[2] == f[2] && g[3] == f[3]);
    assert(be32_head(f) == n);
    assert(be32_head(g) == n);
    assert(f.subrange(4, 4 + n as int) =~= payload);
    assert(g.subrange(4, 4 + n as int) =~= payload);
    assert(g.subrange(4 + payload.len() as int, g.len() as int) =~= rest);
}

/// A frame cut short is not read: every proper prefix of a frame is
/// incomplete.
pub proof fn law_frame_prefix_incomplete(payload: Seq<u8>, k: int)
    requires
        payload.len() <= u32::MAX,
        0 <= k < 4 + payload.len(),
    ensures
        deframe(frame(payload).subrange(0, k)) is None,
{
    let n = payload.len() as u32;
    lemma_be32_round_trip(n);
    let f = frame(payload);
    let p = f.subrange(0, k);
    if k >= 4 {
        assert(p[0] == be32(n)[0] && p[1] == be32(n)[1] && p[2] == be32(n)[2] && p[3] == be32(
            n,
        )[3]);
        assert(be32_head(p) == n);
    }
}

} // verus!
