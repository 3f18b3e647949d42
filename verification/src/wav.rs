//! Byte-exact linear-PCM container encoding for one segment.
//!
//! A finalized segment file is a 44-byte header followed by the raw data
//! section. `header_bytes` is the mathematical statement of the header
//! layout; `SegmentWriter` accumulates the data section sample by sample and
//! produces the complete file on finalize.

use vstd::prelude::*;

use crate::config::{SampleEncoding, StreamConfig, WavSpec};
use crate::config::spec_of_config;

verus! {

/// Largest data-section length the container can declare: the outer chunk
/// size field stores `36 + data_len` in 32 bits.
pub const MAX_DATA_BYTES: u32 = 0xFFFF_FFDB;

/// The two bytes of `v` in little-endian order.
pub open spec fn le16(v: u16) -> Seq<u8> {
    seq![(v & 0xff) as u8, ((v >> 8) & 0xff) as u8]
}

/// The four bytes of `v` in little-endian order.
pub open spec fn le32(v: u32) -> Seq<u8> {
    seq![
        (v & 0xff) as u8,
        ((v >> 8) & 0xff) as u8,
        ((v >> 16) & 0xff) as u8,
        ((v >> 24) & 0xff) as u8,
    ]
}

/// Header flag for the sample encoding: 1 for integer PCM, 3 for float PCM.
pub open spec fn format_tag(e: SampleEncoding) -> u16 {
    match e {
        SampleEncoding::Int => 1,
        SampleEncoding::Float => 3,
    }
}

/// Bytes in one sample.
pub open spec fn bytes_per_sample(s: WavSpec) -> int {
    s.bits_per_sample as int / 8
}

/// Bytes in one frame (one sample per channel).
pub open spec fn block_align(s: WavSpec) -> int {
    s.channels * bytes_per_sample(s)
}

/// Bytes per second of audio.
pub open spec fn byte_rate(s: WavSpec) -> int {
    s.sample_rate * block_align(s)
}

/// The 44 header bytes declaring a data section of `data_len` bytes.
pub open spec fn header_bytes(s: WavSpec, data_len: u32) -> Seq<u8> {
    seq![0x52u8, 0x49u8, 0x46u8, 0x46u8] + le32((36 + data_len) as u32)
        + seq![0x57u8, 0x41u8, 0x56u8, 0x45u8]
        + seq![0x66u8, 0x6du8, 0x74u8, 0x20u8] + le32(16)
        + le16(format_tag(s.sample_format)) + le16(s.channels) + le32(s.sample_rate)
        + le32(byte_rate(s) as u32) + le16(block_align(s) as u16) + le16(s.bits_per_sample)
        + seq![0x64u8, 0x61u8, 0x74u8, 0x61u8] + le32(data_len)
}

fn push_le16(out: &mut Vec<u8>, v: u16)
    ensures
        final(out)@ == old(out)@ + le16(v),
{
    assert(v & 0xff <= 0xff && (v >> 8) & 0xff <= 0xff) by (bit_vector);
    out.push((v & 0xff) as u8);
    out.push(((v >> 8) & 0xff) as u8);
    assert(out@ =~= old(out)@ + le16(v));
}

fn push_le32(out: &mut Vec<u8>, v: u32)
    ensures
        final(out)@ == old(out)@ + le32(v),
{
    assert(v & 0xff <= 0xff && (v >> 8) & 0xff <= 0xff && (v >> 16) & 0xff <= 0xff && (v
        >> 24) & 0xff <= 0xff) by (bit_vector);
    out.push((v & 0xff) as u8);
    out.push(((v >> 8) & 0xff) as u8);
    out.push(((v >> 16) & 0xff) as u8);
    out.push(((v >> 24) & 0xff) as u8);
    assert(out@ =~= old(out)@ + le32(v));
}

/// Builds the header for well-formed parameters and an in-range data length.
pub fn build_header(s: &WavSpec, data_len: u32) -> (h: Vec<u8>)
    requires
        s.wf(),
        data_len <= MAX_DATA_BYTES,
    ensures
        h@ == header_bytes(*s, data_len),
        h@.len() == 44,
{
    let bytes_per: u16 = s.bits_per_sample / 8;
    let ba: u32 = (s.channels as u32) * (bytes_per as u32);
    assert(ba == block_align(*s));
    proof {
        assert((s.sample_rate as int) * (ba as int) == s.sample_rate * s.channels * (
        s.bits_per_sample as int / 8)) by (nonlinear_arith)
            requires
                ba == s.channels * (s.bits_per_sample as int / 8),
        ;
    }
    let br: u64 = (s.sample_rate as u64) * (ba as u64);
    assert(br == byte_rate(*s));
    assert(br <= u32::MAX);
    let tag: u16 = match s.sample_format {
        SampleEncoding::Int => 1,
        SampleEncoding::Float => 3,
    };
    let mut h: Vec<u8> = Vec::new();
    h.push(0x52);
    h.push(0x49);
    h.push(0x46);
    h.push(0x46);
    push_le32(&mut h, 36 + data_len);
    h.push(0x57);
    h.push(0x41);
    h.push(0x56);
    h.push(0x45);
    h.push(0x66);
    h.push(0x6d);
    h.push(0x74);
    h.push(0x20);
    push_le32(&mut h, 16);
    push_le16(&mut h, tag);
    push_le16(&mut h, s.channels);
    push_le32(&mut h, s.sample_rate);
    push_le32(&mut h, br as u32);
    push_le16(&mut h, ba as u16);
    push_le16(&mut h, s.bits_per_sample);
    h.push(0x64);
    h.push(0x61);
    h.push(0x74);
    h.push(0x61);
    push_le32(&mut h, data_len);
    assert(h@ =~= header_bytes(*s, data_len));
    h
}

/// The header states each configured field at a fixed offset: the encoding
/// flag, channel count, sample rate, byte rate, frame size, bit depth, and
/// the declared data length.
pub proof fn lemma_header_fields(s: WavSpec, data_len: u32)
    requires
        s.wf(),
        data_len <= MAX_DATA_BYTES,
    ensures
        header_bytes(s, data_len).len() == 44,
        header_bytes(s, data_len).subrange(20, 22) == le16(format_tag(s.sample_format)),
        header_bytes(s, data_len).subrange(22, 24) == le16(s.channels),
        header_bytes(s, data_len).subrange(24, 28) == le32(s.sample_rate),
        header_bytes(s, data_len).subrange(28, 32) == le32(byte_rate(s) as u32),
        header_bytes(s, data_len).subrange(32, 34) == le16(block_align(s) as u16),
        header_bytes(s, data_len).subrange(34, 36) == le16(s.bits_per_sample),
        header_bytes(s, data_len).subrange(40, 44) == le32(data_len),
{
    let h = header_bytes(s, data_len);
    assert(h.subrange(20, 22) =~= le16(format_tag(s.sample_format)));
    assert(h.subrange(22, 24) =~= le16(s.channels));
    assert(h.subrange(24, 28) =~= le32(s.sample_rate));
    assert(h.subrange(28, 32) =~= le32(byte_rate(s) as u32));
    assert(h.subrange(32, 34) =~= le16(block_align(s) as u16));
    assert(h.subrange(34, 36) =~= le16(s.bits_per_sample));
    assert(h.subrange(40, 44) =~= le32(data_len));
}

/// For every valid stream configuration, the header of a segment recorded
/// under it states exactly the configured channel count, sample rate, bit
/// depth and integer/float flag.
pub proof fn lemma_header_matches_config(c: StreamConfig, data_len: u32)
    requires
        c.wf(),
        spec_of_config(c).wf(),
        data_len <= MAX_DATA_BYTES,
    ensures
        header_bytes(spec_of_config(c), data_len).subrange(22, 24) == le16(c.channels),
        header_bytes(spec_of_config(c), data_len).subrange(24, 28) == le32(c.sample_rate),
        header_bytes(spec_of_config(c), data_len).subrange(34, 36) == le16(
            (8 * c.format.spec_sample_size()) as u16,
        ),
        header_bytes(spec_of_config(c), data_len).subrange(20, 22) == le16(
            if c.format.spec_is_float() {
                3
            } else {
                1
            },
        ),
{
    lemma_header_fields(spec_of_config(c), data_len);
}

/// A finalized stream is consistent however writes and the finalize were
/// interleaved: whatever whole-sample data section the writer holds when
/// finalize runs, the file is exactly the header followed by that data,
/// unaltered, the declared data length is the actual one, and the data
/// section splits into whole two-byte samples — no partial sample is visible.
pub proof fn lemma_finalized_stream_consistent(params: WavSpec, data: Seq<u8>)
    requires
        params.wf(),
        data.len() % 2 == 0,
        data.len() <= MAX_DATA_BYTES,
    ensures
        ({
            let file = header_bytes(params, data.len() as u32) + data;
            &&& file.len() == 44 + data.len()
            &&& file.subrange(40, 44) == le32(data.len() as u32)
            &&& file.subrange(44, file.len() as int) == data
            &&& (file.len() - 44) % 2 == 0
        }),
{
    let file = header_bytes(params, data.len() as u32) + data;
    lemma_header_fields(params, data.len() as u32);
    assert(file.subrange(40, 44) =~= header_bytes(params, data.len() as u32).subrange(40, 44));
    assert(file.subrange(44, file.len() as int) =~= data);
}

/// Accumulates one segment's data section and finalizes it into a complete,
/// self-describing container file.
pub struct SegmentWriter {
    params: WavSpec,
    data: Vec<u8>,
}

impl SegmentWriter {
    /// The header parameters this segment was opened with.
    pub closed spec fn spec_params(self) -> WavSpec {
        self.params
    }

    /// The data section accumulated so far.
    pub closed spec fn data_bytes(self) -> Seq<u8> {
        self.data@
    }

    /// Well-formedness: valid parameters, a data section made of whole
    /// two-byte sample units, and a length the header can declare.
    pub open spec fn wf(self) -> bool {
        &&& self.spec_params().wf()
        &&& self.data_bytes().len() % 2 == 0
        &&& self.data_bytes().len() <= MAX_DATA_BYTES
    }

    /// Opens a segment: an empty data section under the given parameters.
    pub fn new(params: WavSpec) -> (w: SegmentWriter)
        requires
            params.wf(),
        ensures
            w.wf(),
            w.spec_params() == params,
            w.data_bytes() == Seq::<u8>::empty(),
    {
        SegmentWriter { params, data: Vec::new() }
    }

    /// Bytes in the data section so far.
    pub fn data_len(&self) -> (n: usize)
        ensures
            n == self.data_bytes().len(),
    {
        self.data.len()
    }

    /// The parameters this segment was opened with.
    pub fn params(&self) -> (p: WavSpec)
        ensures
            p == self.spec_params(),
    {
        self.params
    }

    /// Appends one 16-bit integer sample as two little-endian bytes, in one
    /// piece: either both bytes land or, when the data section is full, the
    /// sample is dropped whole.
    pub fn write_sample_i16(&mut self, sample: i16) -> (written: bool)
        requires
            old(self).wf(),
            old(self).spec_params().bits_per_sample == 16,
            old(self).spec_params().sample_format is Int,
        ensures
            final(self).wf(),
            final(self).spec_params() == old(self).spec_params(),
            written <==> old(self).data_bytes().len() + 2 <= MAX_DATA_BYTES,
            written ==> final(self).data_bytes() == old(self).data_bytes() + le16(
                sample as u16,
            ),
            !written ==> *final(self) == *old(self),
    {
        if self.data.len() <= (MAX_DATA_BYTES - 2) as usize {
            let bits: u16 = #[verifier::truncate] (sample as u16);
            assert(bits & 0xff <= 0xff && (bits >> 8) & 0xff <= 0xff) by (bit_vector);
            self.data.push((bits & 0xff) as u8);
            self.data.push(((bits >> 8) & 0xff) as u8);
            assert(self.data@ =~= old(self).data_bytes() + le16(sample as u16));
            true
        } else {
            false
        }
    }

    /// Finalizes the segment: the complete file is the header declaring the
    /// accumulated data length, followed by that data, so the declared and
    /// actual lengths agree and the data section holds only whole samples.
    pub fn finalize(self) -> (out: Vec<u8>)
        requires
            self.wf(),
        ensures
            out@ == header_bytes(self.spec_params(), self.data_bytes().len() as u32)
                + self.data_bytes(),
            out@.len() == 44 + self.data_bytes().len(),
            (out@.len() - 44) % 2 == 0,
    {
        let SegmentWriter { params, mut data } = self;
        let mut out = build_header(&params, data.len() as u32);
        out.append(&mut data);
        out
    }
}

} // verus!
