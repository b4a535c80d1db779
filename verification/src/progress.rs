//! Byte-level progress reporting for the binary download.
//!
//! The download code reports progress through the narrow [`ProgressSink`]
//! interface — declare a total, add increments, mark finished — and the
//! consumer of the events (a progress bar, a log line) lives outside this
//! crate and implements the trait. [`ProgressState`] is the plain recorder
//! of those events, with every method verified against the interface.

use vstd::prelude::*;

verus! {

/// The reporting interface that the download code drives.
///
/// An implementor carries three observable quantities: the declared
/// total (the expected byte count, 0 when unknown), the cumulative
/// count of bytes received so far, and whether the download was marked
/// finished. Each method says exactly how it moves those quantities and
/// that it touches nothing else.
pub trait ProgressSink {
    /// The declared expected byte count; 0 when the server gave none.
    spec fn total(&self) -> u64;

    /// The cumulative count of bytes reported received so far.
    spec fn received(&self) -> u64;

    /// Whether the download was marked finished.
    spec fn finished(&self) -> bool;

    /// Declare the expected total, leaving the received count and the
    /// finished mark alone.
    fn set_total(&mut self, total: u64)
        ensures
            final(self).total() == total,
            final(self).received() == old(self).received(),
            final(self).finished() == old(self).finished(),
    ;

    /// Report `amount` more bytes received, leaving the total and the
    /// finished mark alone.
    fn inc(&mut self, amount: u64)
        requires
            old(self).received() + amount <= u64::MAX,
        ensures
            final(self).received() == old(self).received() + amount,
            final(self).total() == old(self).total(),
            final(self).finished() == old(self).finished(),
    ;

    /// Mark the download finished, leaving the counts alone.
    fn finish(&mut self)
        ensures
            final(self).finished(),
            final(self).total() == old(self).total(),
            final(self).received() == old(self).received(),
    ;
}

/// A plain record of the progress events: the declared total, the bytes
/// received so far, and whether the download finished.
#[derive(Clone, Copy, Debug, PartialEq, Eq, Structural)]
pub struct ProgressState {
    /// The declared expected byte count; 0 when the server gave none.
    pub total: u64,
    /// The cumulative count of bytes received so far.
    pub received: u64,
    /// Whether the download was marked finished.
    pub finished: bool,
}

impl ProgressState {
    /// A fresh record: nothing declared, nothing received, not finished.
    pub fn new() -> (r: ProgressState)
        ensures
            r.total == 0,
            r.received == 0,
            !r.finished,
    {
        ProgressState { total: 0, received: 0, finished: false }
    }
}

impl ProgressSink for ProgressState {
    open spec fn total(&self) -> u64 {
        self.total
    }

    open spec fn received(&self) -> u64 {
        self.received
    }

    open spec fn finished(&self) -> bool {
        self.finished
    }

    fn set_total(&mut self, total: u64) {
        self.total = total;
    }

    fn inc(&mut self, amount: u64) {
        self.received = self.received + amount;
    }

    fn finish(&mut self) {
        self.finished = true;
    }
}

} // verus!
