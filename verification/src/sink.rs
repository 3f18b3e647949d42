//! The per-segment sample sink: the non-blocking write target of the device
//! callback.
//!
//! A sink is either absent (no segment open) or holds the open segment's
//! writer. Writes against an absent sink are no-ops; writes against an open
//! sink append whole samples, best effort, and never lose bytes already
//! buffered. Finalizing takes the writer out, leaving the sink absent, and
//! yields the complete container file.

use vstd::prelude::*;

use crate::config::WavSpec;
use crate::wav::{SegmentWriter, header_bytes, le16, MAX_DATA_BYTES};

verus! {

/// The bytes a sequence of 16-bit samples contributes to the data section:
/// each sample in order, two little-endian bytes each.
pub open spec fn encode_samples(s: Seq<i16>) -> Seq<u8>
    decreases s.len(),
{
    if s.len() == 0 {
        Seq::empty()
    } else {
        encode_samples(s.drop_last()) + le16(s.last() as u16)
    }
}

/// Encoding `n` samples yields exactly `2 * n` bytes.
pub proof fn lemma_encode_samples_len(s: Seq<i16>)
    ensures
        encode_samples(s).len() == 2 * s.len(),
    decreases s.len(),
{
    if s.len() > 0 {
        lemma_encode_samples_len(s.drop_last());
    }
}

/// The write target one capture session hands to the device callback.
pub struct SampleSink {
    writer: Option<SegmentWriter>,
}

impl SampleSink {
    /// Whether a segment is open.
    pub closed spec fn is_open(self) -> bool {
        self.writer is Some
    }

    /// The open segment's writer.
    pub closed spec fn writer_view(self) -> SegmentWriter
        recommends
            self.is_open(),
    {
        self.writer->0
    }

    pub open spec fn wf(self) -> bool {
        self.is_open() ==> self.writer_view().wf()
    }

    /// The open segment's header parameters.
    pub open spec fn segment_params(self) -> WavSpec
        recommends
            self.is_open(),
    {
        self.writer_view().spec_params()
    }

    /// The bytes buffered for the current segment; empty when absent.
    pub open spec fn buffered(self) -> Seq<u8> {
        if self.is_open() {
            self.writer_view().data_bytes()
        } else {
            Seq::empty()
        }
    }

    /// Whether a segment is currently open, as a run-time answer.
    pub fn is_active(&self) -> (b: bool)
        ensures
            b == self.is_open(),
    {
        self.writer.is_some()
    }

    /// A sink with no open segment.
    pub fn absent() -> (s: SampleSink)
        ensures
            !s.is_open(),
            s.wf(),
    {
        SampleSink { writer: None }
    }

    /// Absent → open: binds the sink to a fresh segment whose data section is
    /// empty, so nothing stands in the file before recording begins.
    pub fn start_segment(&mut self, params: WavSpec)
        requires
            !old(self).is_open(),
            params.wf(),
        ensures
            final(self).is_open(),
            final(self).wf(),
            final(self).segment_params() == params,
            final(self).buffered().len() == 0,
    {
        self.writer = Some(SegmentWriter::new(params));
    }

    /// The device callback's write path. Against an absent sink the call is a
    /// no-op. Against an open sink it appends the samples in order, each as
    /// one whole two-byte unit; bytes already buffered are never altered and
    /// the buffer never shrinks. When everything fits under the container's
    /// length cap, all samples land exactly; past the cap, trailing samples
    /// are dropped whole, best effort.
    pub fn write_input_data(&mut self, input: &[i16])
        requires
            old(self).wf(),
            old(self).is_open() ==> old(self).segment_params().bits_per_sample == 16
                && old(self).segment_params().sample_format is Int,
        ensures
            final(self).wf(),
            final(self).is_open() == old(self).is_open(),
            !old(self).is_open() ==> *final(self) == *old(self),
            old(self).is_open() ==> final(self).segment_params() == old(self).segment_params(),
            final(self).buffered().len() >= old(self).buffered().len(),
            final(self).buffered().subrange(0, old(self).buffered().len() as int) == old(
                self,
            ).buffered(),
            old(self).is_open() && old(self).buffered().len() + 2 * input@.len()
                <= MAX_DATA_BYTES ==> final(self).buffered() == old(self).buffered()
                + encode_samples(input@),
    {
        match self.writer.take() {
            None => {
            },
            Some(mut w) => {
                let ghost start = w.data_bytes();
                let mut i: usize = 0;
                while i < input.len()
                    invariant
                        w.wf(),
                        w.spec_params() == old(self).segment_params(),
                        w.spec_params().bits_per_sample == 16,
                        w.spec_params().sample_format is Int,
                        i <= input@.len(),
                        w.data_bytes().len() >= start.len(),
                        w.data_bytes().subrange(0, start.len() as int) == start,
                        start.len() + 2 * i <= MAX_DATA_BYTES ==> w.data_bytes() == start
                            + encode_samples(input@.subrange(0, i as int)),
                    decreases input@.len() - i,
                {
                    let ghost before = w.data_bytes();
                    let written = w.write_sample_i16(input[i]);
                    proof {
                        if written {
                            assert(w.data_bytes().subrange(0, start.len() as int) =~= before
                                .subrange(0, start.len() as int));
                        }
                        if start.len() + 2 * (i + 1) <= MAX_DATA_BYTES {
                            lemma_encode_samples_len(input@.subrange(0, i as int));
                            assert(input@.subrange(0, (i + 1) as int).drop_last() =~= input@
                                .subrange(0, i as int));
                            assert(encode_samples(input@.subrange(0, (i + 1) as int))
                                == encode_samples(input@.subrange(0, i as int)) + le16(
                                input@[i as int] as u16,
                            ));
                        }
                    }
                    i = i + 1;
                }
                proof {
                    if start.len() + 2 * input@.len() <= MAX_DATA_BYTES {
                        assert(input@.subrange(0, input@.len() as int) =~= input@);
                    }
                }
                self.writer = Some(w);
            },
        }
    }

    /// Open → absent: finalizes the segment, yielding the complete file —
    /// the header declaring the buffered length, then the buffered data, all
    /// whole samples. Against an absent sink it yields nothing. Either way
    /// the sink is absent afterwards.
    pub fn finalize_segment(&mut self) -> (out: Option<Vec<u8>>)
        requires
            old(self).wf(),
        ensures
            !final(self).is_open(),
            final(self).wf(),
            old(self).is_open() <==> out is Some,
            old(self).is_open() ==> out->0@ == header_bytes(
                old(self).segment_params(),
                old(self).buffered().len() as u32,
            ) + old(self).buffered(),
            old(self).is_open() ==> out->0@.len() == 44 + old(self).buffered().len(),
    {
        match self.writer.take() {
            None => None,
            Some(w) => Some(w.finalize()),
        }
    }
}

} // verus!
