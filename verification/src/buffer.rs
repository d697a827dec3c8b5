//! Byte buffers of the `bytes` crate and the frame encoder of `tokio-util`,
//! as far as the engine uses them.
//!
//! Nothing in this file is proved: each contract restates what the outside
//! function does.

use crate::wire::{be32, frame_bytes, MAX_FRAME_PAYLOAD};
use bytes::{BufMut, Bytes, BytesMut};
use tokio_util::codec::{Encoder, LengthDelimitedCodec};
use vstd::prelude::*;

verus! {

/// `bytes::BytesMut`, a growable byte buffer.
#[verifier::external_type_specification]
#[verifier::external_body]
pub struct ExBytesMut(bytes::BytesMut);

/// `bytes::Bytes`, an immutable byte string.
#[verifier::external_type_specification]
#[verifier::external_body]
pub struct ExBytes(bytes::Bytes);

/// The bytes that a buffer holds, first to last.
pub uninterp spec fn buffer_bytes(b: BytesMut) -> Seq<u8>;

/// The bytes that an immutable byte string holds, first to last.
pub uninterp spec fn frozen_bytes(b: Bytes) -> Seq<u8>;

/// A byte sequence cut down to `len` bytes, or extended to `len` bytes with
/// copies of `value`.
pub open spec fn resized(bytes: Seq<u8>, len: nat, value: u8) -> Seq<u8> {
    if len <= bytes.len() {
        bytes.subrange(0, len as int)
    } else {
        bytes + Seq::new((len - bytes.len()) as nat, |i: int| value)
    }
}

/// `BytesMut::with_capacity`: a buffer that holds no bytes. The capacity is
/// kept within what one allocation may hold.
#[verifier::external_body]
pub(crate) fn buffer_with_capacity(capacity: usize) -> (b: BytesMut)
    requires
        capacity <= isize::MAX,
    ensures
        buffer_bytes(b) == Seq::<u8>::empty(),
{
    BytesMut::with_capacity(capacity)
}

/// `BufMut::put_u32` on a `BytesMut`: appends the four bytes of `v`, most
/// significant first. The buffer grows as needed, up to the largest
/// allocation.
#[verifier::external_body]
pub(crate) fn buffer_put_u32(b: &mut BytesMut, v: u32)
    requires
        buffer_bytes(*old(b)).len() + 4 <= isize::MAX,
    ensures
        buffer_bytes(*final(b)) == buffer_bytes(*old(b)) + be32(v),
{
    b.put_u32(v)
}

/// `BytesMut::resize`: cuts the buffer down to `new_len` bytes, or extends it
/// to `new_len` bytes with copies of `value`.
#[verifier::external_body]
pub(crate) fn buffer_resize(b: &mut BytesMut, new_len: usize, value: u8)
    requires
        new_len <= isize::MAX,
    ensures
        buffer_bytes(*final(b)) == resized(buffer_bytes(*old(b)), new_len as nat, value),
{
    b.resize(new_len, value)
}

/// `BytesMut::split`: hands out everything the buffer holds and leaves the
/// buffer empty.
#[verifier::external_body]
pub(crate) fn buffer_split(b: &mut BytesMut) -> (taken: BytesMut)
    ensures
        buffer_bytes(taken) == buffer_bytes(*old(b)),
        buffer_bytes(*final(b)) == Seq::<u8>::empty(),
{
    b.split()
}

/// `BytesMut::freeze`: the same bytes, made immutable.
#[verifier::external_body]
pub(crate) fn buffer_freeze(b: BytesMut) -> (frozen: Bytes)
    ensures
        frozen_bytes(frozen) == buffer_bytes(b),
{
    b.freeze()
}

/// `Encoder::<Bytes>::encode` of a `LengthDelimitedCodec` with its default
/// settings, into a fresh buffer: a payload of at most 8 MiB becomes its
/// length as four big-endian bytes followed by the payload; a longer one is
/// refused.
#[verifier::external_body]
pub(crate) fn encode_frame(payload: Bytes) -> (frame: Option<BytesMut>)
    ensures
        frame is Some <==> frozen_bytes(payload).len() <= MAX_FRAME_PAYLOAD,
        frame matches Some(f) ==> buffer_bytes(f) == frame_bytes(frozen_bytes(payload)),
{
    let mut dst = BytesMut::new();
    match LengthDelimitedCodec::new().encode(payload, &mut dst) {
        Ok(()) => Some(dst),
        Err(_) => None,
    }
}

} // verus!
