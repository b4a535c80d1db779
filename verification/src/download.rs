//! Incremental assembly of the downloaded binary.
//!
//! The transfer itself is performed by the surrounding application, which
//! receives the response and its body chunk by chunk. Each step of the
//! download is decided here: [`Download::begin`] reads the advertised
//! content length and declares the total to the progress sink before any
//! increment, [`Download::push_chunk`] appends a chunk to the payload and
//! reports its length as an increment, and [`Download::complete`] marks
//! the sink finished exactly once and hands the payload out. The sink's
//! received count always equals the payload length, so the sum of the
//! increments equals the byte count of what was assembled.

use vstd::prelude::*;

use crate::progress::ProgressSink;

verus! {

/// The expected total derived from the advertised content length:
/// the length itself, or 0 when the server gave none.
pub open spec fn declared_total(content_length: Option<u64>) -> u64 {
    match content_length {
        Some(n) => n,
        None => 0,
    }
}

/// The payload assembled from a sequence of chunks, in order.
pub open spec fn chunks_joined(chunks: Seq<Seq<u8>>) -> Seq<u8>
    decreases chunks.len(),
{
    if chunks.len() == 0 {
        Seq::empty()
    } else {
        chunks_joined(chunks.drop_last()) + chunks.last()
    }
}

/// The sum of the progress increments reported for a sequence of
/// chunks: one increment per chunk, of the chunk's length.
pub open spec fn increments_sum(chunks: Seq<Seq<u8>>) -> nat
    decreases chunks.len(),
{
    if chunks.len() == 0 {
        0
    } else {
        increments_sum(chunks.drop_last()) + chunks.last().len()
    }
}

/// However a download of N bytes is divided into chunks, the sum of the
/// progress increments reported for the chunks equals N, the length of
/// the payload assembled from them.
pub proof fn lemma_increments_sum_is_payload_len(chunks: Seq<Seq<u8>>)
    ensures
        increments_sum(chunks) == chunks_joined(chunks).len(),
    decreases chunks.len(),
{
    if chunks.len() != 0 {
        lemma_increments_sum_is_payload_len(chunks.drop_last());
    }
}

/// An in-progress download: the payload accumulated so far and the
/// expected total that was declared to the progress sink.
pub struct Download {
    bytes: Vec<u8>,
    expected: u64,
}

impl Download {
    /// The payload bytes accumulated so far.
    pub closed spec fn payload(&self) -> Seq<u8> {
        self.bytes@
    }

    /// The expected total declared when the download began.
    pub closed spec fn expected_total(&self) -> u64 {
        self.expected
    }

    /// The download and the sink agree: the sink carries the declared
    /// total, its received count equals the payload length, and it has
    /// not been marked finished.
    pub open spec fn synced<P: ProgressSink>(&self, sink: &P) -> bool {
        &&& sink.total() == self.expected_total()
        &&& sink.received() as nat == self.payload().len()
        &&& !sink.finished()
    }

    /// Start a download: derive the expected total from the advertised
    /// content length (0 when absent) and declare it to the sink before
    /// any increment is reported — the sink's received count is still 0.
    pub fn begin<P: ProgressSink>(content_length: Option<u64>, sink: &mut P) -> (d: Download)
        requires
            old(sink).received() == 0,
            !old(sink).finished(),
        ensures
            d.payload() == Seq::<u8>::empty(),
            d.expected_total() == declared_total(content_length),
            final(sink).total() == declared_total(content_length),
            final(sink).received() == 0,
            !final(sink).finished(),
            d.synced(&*final(sink)),
    {
        let total: u64 = match content_length {
            Some(n) => n,
            None => 0,
        };
        sink.set_total(total);
        Download { bytes: Vec::new(), expected: total }
    }

    /// Append one chunk to the payload and report its length to the
    /// sink as one increment.
    pub fn push_chunk<P: ProgressSink>(&mut self, chunk: &[u8], sink: &mut P)
        requires
            old(self).synced(&*old(sink)),
            old(self).payload().len() + chunk@.len() <= u64::MAX,
        ensures
            final(self).payload() == old(self).payload() + chunk@,
            final(self).expected_total() == old(self).expected_total(),
            final(sink).received() == old(sink).received() + chunk@.len(),
            final(sink).total() == old(sink).total(),
            !final(sink).finished(),
            final(self).synced(&*final(sink)),
    {
        self.bytes.extend_from_slice(chunk);
        sink.inc(chunk.len() as u64);
    }

    /// Finish the download: mark the sink finished exactly once and hand
    /// out the assembled payload, whose length is what the sink received.
    pub fn complete<P: ProgressSink>(self, sink: &mut P) -> (payload: Vec<u8>)
        requires
            self.synced(&*old(sink)),
        ensures
            payload@ == self.payload(),
            final(sink).finished(),
            final(sink).received() as nat == payload@.len(),
            final(sink).total() == self.expected_total(),
    {
        sink.finish();
        self.bytes
    }
}

} // verus!
