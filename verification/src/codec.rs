//! Serialization of sample buffers into the raw little-endian byte
//! stream that the writer loop emits, and the matching decoding.
//!
//! Signed samples travel as their two's-complement bit patterns;
//! 32-bit IEEE-754 samples travel as their bit patterns, which the
//! caller obtains at the boundary. Every encoder is paired with a
//! decoder and a round-trip proof.

use vstd::prelude::*;
use vstd::arithmetic::div_mod::lemma_fundamental_div_mod;
use crate::config::SampleFormat;

verus! {

// --- two's-complement bit patterns of signed samples ---

/// The 16-bit pattern that represents `x` in two's complement.
pub open spec fn spec_bits_of_i16(x: i16) -> u16 {
    if x >= 0 {
        x as u16
    } else {
        (x + 0x10000) as u16
    }
}

/// The signed value a 16-bit pattern represents in two's complement.
pub open spec fn spec_i16_of_bits(b: u16) -> i16 {
    if b < 0x8000 {
        b as i16
    } else {
        (b - 0x10000) as i16
    }
}

/// The 32-bit pattern that represents `x` in two's complement.
pub open spec fn spec_bits_of_i32(x: i32) -> u32 {
    if x >= 0 {
        x as u32
    } else {
        (x + 0x1_0000_0000) as u32
    }
}

/// The signed value a 32-bit pattern represents in two's complement.
pub open spec fn spec_i32_of_bits(b: u32) -> i32 {
    if b < 0x8000_0000 {
        b as i32
    } else {
        (b - 0x1_0000_0000) as i32
    }
}

/// Bit patterns represent signed values faithfully.
pub proof fn lemma_i16_bits_round_trip(x: i16)
    ensures
        spec_i16_of_bits(spec_bits_of_i16(x)) == x,
{
}

/// Bit patterns represent signed values faithfully.
pub proof fn lemma_i32_bits_round_trip(x: i32)
    ensures
        spec_i32_of_bits(spec_bits_of_i32(x)) == x,
{
}

/// Computes the 16-bit pattern of a signed sample.
pub fn bits_of_i16(x: i16) -> (r: u16)
    ensures
        r == spec_bits_of_i16(x),
{
    if x >= 0 {
        x as u16
    } else {
        ((x as i32) + 0x10000) as u16
    }
}

/// Reads a 16-bit pattern back as a signed sample.
pub fn i16_of_bits(b: u16) -> (r: i16)
    ensures
        r == spec_i16_of_bits(b),
{
    if b < 0x8000 {
        b as i16
    } else {
        ((b as i32) - 0x10000) as i16
    }
}

/// Computes the 32-bit pattern of a signed sample.
pub fn bits_of_i32(x: i32) -> (r: u32)
    ensures
        r == spec_bits_of_i32(x),
{
    if x >= 0 {
        x as u32
    } else {
        ((x as i64) + 0x1_0000_0000) as u32
    }
}

/// Reads a 32-bit pattern back as a signed sample.
pub fn i32_of_bits(b: u32) -> (r: i32)
    ensures
        r == spec_i32_of_bits(b),
{
    if b < 0x8000_0000 {
        b as i32
    } else {
        ((b as i64) - 0x1_0000_0000) as i32
    }
}

// --- little-endian bytes of one sample ---

/// The two little-endian bytes of a 16-bit pattern.
pub open spec fn spec_le16(x: u16) -> Seq<u8> {
    seq![(x % 256) as u8, (x / 256) as u8]
}

/// The four little-endian bytes of a 32-bit pattern: the low half
/// first, each half in little-endian order.
pub open spec fn spec_le32(x: u32) -> Seq<u8> {
    spec_le16((x % 0x10000) as u16) + spec_le16((x / 0x10000) as u16)
}

/// The 16-bit pattern two little-endian bytes encode.
pub open spec fn spec_u16_of_le(b0: u8, b1: u8) -> u16 {
    (b0 + 256 * b1) as u16
}

/// The 32-bit pattern four little-endian bytes encode.
pub open spec fn spec_u32_of_le(b0: u8, b1: u8, b2: u8, b3: u8) -> u32 {
    (spec_u16_of_le(b0, b1) + 0x10000 * spec_u16_of_le(b2, b3)) as u32
}

/// Decoding the two little-endian bytes of a 16-bit pattern gives the
/// pattern back.
pub proof fn lemma_le16_round_trip(x: u16)
    ensures
        spec_le16(x).len() == 2,
        spec_u16_of_le(spec_le16(x)[0], spec_le16(x)[1]) == x,
{
    lemma_fundamental_div_mod(x as int, 256);
}

/// Decoding the four little-endian bytes of a 32-bit pattern gives the
/// pattern back.
pub proof fn lemma_le32_round_trip(x: u32)
    ensures
        spec_le32(x).len() == 4,
        spec_u32_of_le(spec_le32(x)[0], spec_le32(x)[1], spec_le32(x)[2], spec_le32(x)[3]) == x,
{
    let lo = (x % 0x10000) as u16;
    let hi = (x / 0x10000) as u16;
    lemma_le16_round_trip(lo);
    lemma_le16_round_trip(hi);
    lemma_fundamental_div_mod(x as int, 0x10000);
}

/// Appends the two little-endian bytes of `x` to `out`.
pub fn push_le16(x: u16, out: &mut Vec<u8>)
    ensures
        final(out)@ == old(out)@ + spec_le16(x),
{
    out.push((x % 256) as u8);
    out.push((x / 256) as u8);
    proof {
        assert(out@ =~= old(out)@ + spec_le16(x));
    }
}

/// Appends the four little-endian bytes of `x` to `out`.
pub fn push_le32(x: u32, out: &mut Vec<u8>)
    ensures
        final(out)@ == old(out)@ + spec_le32(x),
{
    push_le16((x % 0x10000) as u16, out);
    push_le16((x / 0x10000) as u16, out);
    proof {
        assert(out@ =~= old(out)@ + spec_le32(x));
    }
}

// --- wire bytes of whole buffers ---

/// The wire bytes of a buffer of 16-bit signed samples: each sample's
/// two's-complement pattern in little-endian order, samples in buffer
/// order.
pub open spec fn wire_s16(s: Seq<i16>) -> Seq<u8>
    decreases s.len(),
{
    if s.len() == 0 {
        Seq::empty()
    } else {
        wire_s16(s.drop_last()) + spec_le16(spec_bits_of_i16(s.last()))
    }
}

/// The wire bytes of a buffer of 32-bit signed samples.
pub open spec fn wire_s32(s: Seq<i32>) -> Seq<u8>
    decreases s.len(),
{
    if s.len() == 0 {
        Seq::empty()
    } else {
        wire_s32(s.drop_last()) + spec_le32(spec_bits_of_i32(s.last()))
    }
}

/// The wire bytes of a buffer of 32-bit patterns (IEEE-754 samples).
pub open spec fn wire_f32(s: Seq<u32>) -> Seq<u8>
    decreases s.len(),
{
    if s.len() == 0 {
        Seq::empty()
    } else {
        wire_f32(s.drop_last()) + spec_le32(s.last())
    }
}

/// A serialized buffer occupies exactly the sample count times the
/// two-byte wire width.
pub proof fn lemma_wire_s16_len(s: Seq<i16>)
    ensures
        wire_s16(s).len() == 2 * s.len(),
    decreases s.len(),
{
    if s.len() > 0 {
        lemma_wire_s16_len(s.drop_last());
    }
}

/// A serialized buffer occupies exactly the sample count times the
/// four-byte wire width.
pub proof fn lemma_wire_s32_len(s: Seq<i32>)
    ensures
        wire_s32(s).len() == 4 * s.len(),
    decreases s.len(),
{
    if s.len() > 0 {
        lemma_wire_s32_len(s.drop_last());
    }
}

/// A serialized buffer occupies exactly the sample count times the
/// four-byte wire width.
pub proof fn lemma_wire_f32_len(s: Seq<u32>)
    ensures
        wire_f32(s).len() == 4 * s.len(),
    decreases s.len(),
{
    if s.len() > 0 {
        lemma_wire_f32_len(s.drop_last());
    }
}

// --- decoding wire bytes back into samples ---

/// The 16-bit signed samples a wire byte sequence encodes, two bytes a
/// sample in little-endian order.
pub open spec fn decode_s16(b: Seq<u8>) -> Seq<i16>
    decreases b.len(),
{
    if b.len() < 2 {
        Seq::empty()
    } else {
        decode_s16(b.take(b.len() - 2)).push(
            spec_i16_of_bits(spec_u16_of_le(b[b.len() - 2], b[b.len() - 1])),
        )
    }
}

/// The 32-bit signed samples a wire byte sequence encodes, four bytes a
/// sample in little-endian order.
pub open spec fn decode_s32(b: Seq<u8>) -> Seq<i32>
    decreases b.len(),
{
    if b.len() < 4 {
        Seq::empty()
    } else {
        decode_s32(b.take(b.len() - 4)).push(
            spec_i32_of_bits(
                spec_u32_of_le(b[b.len() - 4], b[b.len() - 3], b[b.len() - 2], b[b.len() - 1]),
            ),
        )
    }
}

/// The 32-bit patterns a wire byte sequence encodes, four bytes a
/// pattern in little-endian order.
pub open spec fn decode_f32(b: Seq<u8>) -> Seq<u32>
    decreases b.len(),
{
    if b.len() < 4 {
        Seq::empty()
    } else {
        decode_f32(b.take(b.len() - 4)).push(
            spec_u32_of_le(b[b.len() - 4], b[b.len() - 3], b[b.len() - 2], b[b.len() - 1]),
        )
    }
}

/// Serialization loses nothing: decoding the wire bytes of a 16-bit
/// buffer reproduces the buffer, sample for sample.
pub proof fn lemma_s16_round_trip(s: Seq<i16>)
    ensures
        decode_s16(wire_s16(s)) == s,
    decreases s.len(),
{
    if s.len() > 0 {
        let b = wire_s16(s);
        lemma_wire_s16_len(s);
        lemma_wire_s16_len(s.drop_last());
        lemma_s16_round_trip(s.drop_last());
        let tail = spec_le16(spec_bits_of_i16(s.last()));
        lemma_le16_round_trip(spec_bits_of_i16(s.last()));
        lemma_i16_bits_round_trip(s.last());
        assert(b.take(b.len() - 2) =~= wire_s16(s.drop_last()));
        assert(b[b.len() - 2] == tail[0]);
        assert(b[b.len() - 1] == tail[1]);
        assert(decode_s16(wire_s16(s)) =~= s);
    } else {
        assert(decode_s16(wire_s16(s)) =~= s);
    }
}

/// Serialization loses nothing: decoding the wire bytes of a 32-bit
/// signed buffer reproduces the buffer, sample for sample.
pub proof fn lemma_s32_round_trip(s: Seq<i32>)
    ensures
        decode_s32(wire_s32(s)) == s,
    decreases s.len(),
{
    if s.len() > 0 {
        let b = wire_s32(s);
        lemma_wire_s32_len(s);
        lemma_wire_s32_len(s.drop_last());
        lemma_s32_round_trip(s.drop_last());
        let tail = spec_le32(spec_bits_of_i32(s.last()));
        lemma_le32_round_trip(spec_bits_of_i32(s.last()));
        lemma_i32_bits_round_trip(s.last());
        assert(b.take(b.len() - 4) =~= wire_s32(s.drop_last()));
        assert(b[b.len() - 4] == tail[0]);
        assert(b[b.len() - 3] == tail[1]);
        assert(b[b.len() - 2] == tail[2]);
        assert(b[b.len() - 1] == tail[3]);
        assert(decode_s32(wire_s32(s)) =~= s);
    } else {
        assert(decode_s32(wire_s32(s)) =~= s);
    }
}

/// Serialization loses nothing: decoding the wire bytes of a buffer of
/// 32-bit patterns reproduces the buffer, pattern for pattern.
pub proof fn lemma_f32_round_trip(s: Seq<u32>)
    ensures
        decode_f32(wire_f32(s)) == s,
    decreases s.len(),
{
    if s.len() > 0 {
        let b = wire_f32(s);
        lemma_wire_f32_len(s);
        lemma_wire_f32_len(s.drop_last());
        lemma_f32_round_trip(s.drop_last());
        let tail = spec_le32(s.last());
        lemma_le32_round_trip(s.last());
        assert(b.take(b.len() - 4) =~= wire_f32(s.drop_last()));
        assert(b[b.len() - 4] == tail[0]);
        assert(b[b.len() - 3] == tail[1]);
        assert(b[b.len() - 2] == tail[2]);
        assert(b[b.len() - 1] == tail[3]);
        assert(decode_f32(wire_f32(s)) =~= s);
    } else {
        assert(decode_f32(wire_f32(s)) =~= s);
    }
}

/// Serializes a buffer of 16-bit signed samples to its wire bytes.
pub fn serialize_s16(samples: &[i16]) -> (r: Vec<u8>)
    ensures
        r@ == wire_s16(samples@),
{
    let mut out: Vec<u8> = Vec::new();
    let mut i: usize = 0;
    while i < samples.len()
        invariant
            i <= samples@.len(),
            out@ == wire_s16(samples@.take(i as int)),
        decreases samples@.len() - i,
    {
        let b = bits_of_i16(samples[i]);
        push_le16(b, &mut out);
        proof {
            assert(samples@.take(i + 1).drop_last() =~= samples@.take(i as int));
            assert(samples@.take(i + 1).last() == samples@[i as int]);
        }
        i = i + 1;
    }
    proof {
        assert(samples@.take(samples@.len() as int) =~= samples@);
    }
    out
}

/// Serializes a buffer of 32-bit signed samples to its wire bytes.
pub fn serialize_s32(samples: &[i32]) -> (r: Vec<u8>)
    ensures
        r@ == wire_s32(samples@),
{
    let mut out: Vec<u8> = Vec::new();
    let mut i: usize = 0;
    while i < samples.len()
        invariant
            i <= samples@.len(),
            out@ == wire_s32(samples@.take(i as int)),
        decreases samples@.len() - i,
    {
        let b = bits_of_i32(samples[i]);
        push_le32(b, &mut out);
        proof {
            assert(samples@.take(i + 1).drop_last() =~= samples@.take(i as int));
            assert(samples@.take(i + 1).last() == samples@[i as int]);
        }
        i = i + 1;
    }
    proof {
        assert(samples@.take(samples@.len() as int) =~= samples@);
    }
    out
}

/// Serializes a buffer of 32-bit patterns to its wire bytes.
pub fn serialize_f32_bits(samples: &[u32]) -> (r: Vec<u8>)
    ensures
        r@ == wire_f32(samples@),
{
    let mut out: Vec<u8> = Vec::new();
    let mut i: usize = 0;
    while i < samples.len()
        invariant
            i <= samples@.len(),
            out@ == wire_f32(samples@.take(i as int)),
        decreases samples@.len() - i,
    {
        push_le32(samples[i], &mut out);
        proof {
            assert(samples@.take(i + 1).drop_last() =~= samples@.take(i as int));
            assert(samples@.take(i + 1).last() == samples@[i as int]);
        }
        i = i + 1;
    }
    proof {
        assert(samples@.take(samples@.len() as int) =~= samples@);
    }
    out
}

// --- one captured buffer, fixed to its format ---

/// One captured buffer of raw samples. The variant is fixed when the
/// pipeline is set up and never changes for the life of the stream;
/// each variant carries the one sample type its format prescribes.
pub enum SampleBuffer {
    /// 16-bit signed samples.
    S16(Vec<i16>),
    /// 32-bit signed samples.
    S32(Vec<i32>),
    /// 32-bit IEEE-754 samples as their bit patterns.
    F32(Vec<u32>),
}

impl SampleBuffer {
    /// The format whose samples this buffer carries.
    pub open spec fn format(self) -> SampleFormat {
        match self {
            SampleBuffer::S16(_) => SampleFormat::S16,
            SampleBuffer::S32(_) => SampleFormat::S32,
            SampleBuffer::F32(_) => SampleFormat::F32,
        }
    }

    /// How many samples the buffer holds.
    pub open spec fn sample_count(self) -> nat {
        match self {
            SampleBuffer::S16(v) => v@.len(),
            SampleBuffer::S32(v) => v@.len(),
            SampleBuffer::F32(v) => v@.len(),
        }
    }

    /// The bytes this buffer contributes to the output stream.
    pub open spec fn wire(self) -> Seq<u8> {
        match self {
            SampleBuffer::S16(v) => wire_s16(v@),
            SampleBuffer::S32(v) => wire_s32(v@),
            SampleBuffer::F32(v) => wire_f32(v@),
        }
    }

    /// A buffer's wire bytes are exactly its sample count times its
    /// format's wire width.
    pub proof fn lemma_wire_len(self)
        ensures
            self.wire().len() == self.sample_count() * self.format().spec_width(),
    {
        match self {
            SampleBuffer::S16(v) => lemma_wire_s16_len(v@),
            SampleBuffer::S32(v) => lemma_wire_s32_len(v@),
            SampleBuffer::F32(v) => lemma_wire_f32_len(v@),
        }
    }

    /// How many samples the buffer holds.
    pub fn len(&self) -> (r: usize)
        ensures
            r == self.sample_count(),
    {
        match self {
            SampleBuffer::S16(v) => v.len(),
            SampleBuffer::S32(v) => v.len(),
            SampleBuffer::F32(v) => v.len(),
        }
    }

    /// Serializes the buffer to the bytes it puts on the wire.
    pub fn serialize(&self) -> (r: Vec<u8>)
        ensures
            r@ == self.wire(),
    {
        match self {
            SampleBuffer::S16(v) => serialize_s16(v.as_slice()),
            SampleBuffer::S32(v) => serialize_s32(v.as_slice()),
            SampleBuffer::F32(v) => serialize_f32_bits(v.as_slice()),
        }
    }
}

} // verus!
