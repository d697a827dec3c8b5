//! Byte layout of payloads and frames.

use vstd::prelude::*;

verus! {

/// Number of header bytes in every payload: a 32-bit tag followed by a
/// 32-bit discriminator.
pub const HEADER_LEN: usize = 8;

/// Tag carried by every filler payload.
pub const FILLER_TAG: u32 = 0xffff_ffff;

/// Number of distinct sample tags; a sample tag is the burst counter
/// reduced modulo this value.
pub const SAMPLE_TAG_SPAN: u32 = 0x100_0000;

/// Largest payload that fits in one frame.
pub const MAX_FRAME_PAYLOAD: usize = 8_388_608;

/// Number of bytes of the length prefix of a frame.
pub const FRAME_PREFIX_LEN: usize = 4;

/// The four bytes of `v`, most significant first.
pub open spec fn be32(v: u32) -> Seq<u8> {
    seq![
        (v / 0x100_0000) as u8,
        (v / 0x1_0000 % 0x100) as u8,
        (v / 0x100 % 0x100) as u8,
        (v % 0x100) as u8,
    ]
}

/// The number that four bytes spell, most significant first.
pub open spec fn be32_value(b: Seq<u8>) -> int
    recommends
        b.len() == 4,
{
    b[0] * 0x100_0000 + b[1] * 0x1_0000 + b[2] * 0x100 + b[3]
}

/// `n` zero bytes.
pub open spec fn zeros(n: nat) -> Seq<u8> {
    Seq::new(n, |i: int| 0u8)
}

/// A payload of `size` bytes: tag, discriminator, then zero filler.
pub open spec fn payload_bytes(tag: u32, discriminator: u32, size: nat) -> Seq<u8>
    recommends
        size >= HEADER_LEN,
{
    be32(tag) + be32(discriminator) + zeros((size - HEADER_LEN) as nat)
}

/// The tag that a payload carries.
pub open spec fn payload_tag(payload: Seq<u8>) -> int
    recommends
        payload.len() >= HEADER_LEN,
{
    be32_value(payload.subrange(0, 4))
}

/// The discriminator that a payload carries.
pub open spec fn payload_discriminator(payload: Seq<u8>) -> int
    recommends
        payload.len() >= HEADER_LEN,
{
    be32_value(payload.subrange(4, 8))
}

/// A frame: the payload's length as four big-endian bytes, then the payload.
pub open spec fn frame_bytes(payload: Seq<u8>) -> Seq<u8>
    recommends
        payload.len() <= MAX_FRAME_PAYLOAD,
{
    be32(payload.len() as u32) + payload
}

/// Big-endian encoding loses nothing: the four bytes spell the number back.
pub proof fn lemma_be32_round_trip(v: u32)
    ensures
        be32(v).len() == 4,
        be32_value(be32(v)) == v,
{
}

/// Two numbers with the same big-endian bytes are the same number.
pub proof fn lemma_be32_injective(a: u32, b: u32)
    requires
        be32(a) == be32(b),
    ensures
        a == b,
{
    lemma_be32_round_trip(a);
    lemma_be32_round_trip(b);
}

/// A payload has exactly the requested size and carries the tag and the
/// discriminator it was built from; every byte after the header is zero.
pub proof fn lemma_payload_layout(tag: u32, discriminator: u32, size: nat)
    requires
        size >= HEADER_LEN,
    ensures
        payload_bytes(tag, discriminator, size).len() == size,
        payload_tag(payload_bytes(tag, discriminator, size)) == tag,
        payload_discriminator(payload_bytes(tag, discriminator, size)) == discriminator,
        forall|i: int|
            HEADER_LEN <= i < size ==> #[trigger] payload_bytes(tag, discriminator, size)[i] == 0,
{
    let p = payload_bytes(tag, discriminator, size);
    lemma_be32_round_trip(tag);
    lemma_be32_round_trip(discriminator);
    assert(p.subrange(0, 4) =~= be32(tag));
    assert(p.subrange(4, 8) =~= be32(discriminator));
}

/// A frame is four bytes longer than its payload, starts with the payload's
/// length and ends with the payload itself.
pub proof fn lemma_frame_layout(payload: Seq<u8>)
    requires
        payload.len() <= MAX_FRAME_PAYLOAD,
    ensures
        frame_bytes(payload).len() == FRAME_PREFIX_LEN + payload.len(),
        be32_value(frame_bytes(payload).subrange(0, 4)) == payload.len(),
        frame_bytes(payload).subrange(4, frame_bytes(payload).len() as int) == payload,
{
    let f = frame_bytes(payload);
    lemma_be32_round_trip(payload.len() as u32);
    assert(f.subrange(0, 4) =~= be32(payload.len() as u32));
    assert(f.subrange(4, f.len() as int) =~= payload);
}

} // verus!
