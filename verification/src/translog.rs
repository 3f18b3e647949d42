//! The shared response log: an append-only byte stream.
//!
//! Each completed dispatch appends one entry — the response body, then a
//! single newline byte — while holding the log's gate, so per acquisition
//! both parts land contiguously. Across dispatches only the order of whole
//! entries varies, never their integrity.

use vstd::prelude::*;

verus! {

/// The bytes one dispatch appends: its response body followed by a newline.
pub open spec fn entry_bytes(body: Seq<u8>) -> Seq<u8> {
    body + seq![10u8]
}

/// The append-only log shared by all dispatches.
pub struct TranscriptLog {
    buf: Vec<u8>,
}

impl TranscriptLog {
    /// Everything appended so far.
    pub closed spec fn content(self) -> Seq<u8> {
        self.buf@
    }

    /// An empty log, created once at startup.
    pub fn new() -> (log: TranscriptLog)
        ensures
            log.content() == Seq::<u8>::empty(),
    {
        TranscriptLog { buf: Vec::new() }
    }

    /// Appends one dispatch's entry as a unit: the whole response body, then
    /// the newline terminator, with nothing in between and nothing lost.
    pub fn append_entry(&mut self, body: &[u8])
        ensures
            final(self).content() == old(self).content() + entry_bytes(body@),
    {
        let mut i: usize = 0;
        while i < body.len()
            invariant
                i <= body@.len(),
                self.buf@ == old(self).content() + body@.subrange(0, i as int),
            decreases body@.len() - i,
        {
            self.buf.push(body[i]);
            proof {
                assert(body@.subrange(0, (i + 1) as int) =~= body@.subrange(0, i as int)
                    + seq![body@[i as int]]);
            }
            i = i + 1;
        }
        self.buf.push(10);
        proof {
            assert(body@.subrange(0, body@.len() as int) =~= body@);
            assert(self.buf@ =~= old(self).content() + entry_bytes(body@));
        }
    }

    /// The log's bytes.
    pub fn bytes(&self) -> (b: &Vec<u8>)
        ensures
            b@ == self.content(),
    {
        &self.buf
    }
}

/// Two dispatches that complete in some order each land as one contiguous,
/// whole entry: after appending `first` then `second` to `log`, the bytes
/// from `log`'s end are exactly `first`'s body and newline, followed by
/// exactly `second`'s body and newline — neither body interleaves with the
/// other's terminator. Instantiating the bodies either way round covers both
/// completion orders.
pub proof fn lemma_two_entries_whole(log: Seq<u8>, first: Seq<u8>, second: Seq<u8>)
    ensures
        ({
            let l = log + entry_bytes(first) + entry_bytes(second);
            &&& l.len() == log.len() + first.len() + second.len() + 2
            &&& l.subrange(log.len() as int, (log.len() + first.len() + 1) as int) == entry_bytes(
                first,
            )
            &&& l.subrange((log.len() + first.len() + 1) as int, l.len() as int) == entry_bytes(
                second,
            )
        }),
{
    let l = log + entry_bytes(first) + entry_bytes(second);
    assert(l.subrange(log.len() as int, (log.len() + first.len() + 1) as int) =~= entry_bytes(first));
    assert(l.subrange((log.len() + first.len() + 1) as int, l.len() as int) =~= entry_bytes(second));
}

} // verus!
