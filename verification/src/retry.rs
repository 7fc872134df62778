//! Bounded in-place retry of one chunk write.
//!
//! A raw device may accept only part of a chunk. The rule here decides what
//! the writer does next: carry on with the remainder at the point the short
//! write reached — never advancing past unwritten bytes — and give the call
//! only a fixed number of short results before the chunk counts as failed.
//! The retry budget never spans chunks or phases: each chunk gets a fresh
//! tracker.

use vstd::prelude::*;

verus! {

/// What the writer does after one write call on the current chunk.
#[derive(PartialEq, Eq, Structural, Clone, Copy, Debug)]
pub enum WriteStep {
    /// The chunk is fully on the device.
    Done,
    /// Write the remainder, starting at `offset` bytes into the chunk.
    Retry { offset: usize },
    /// The retry budget is spent; the chunk write failed.
    GiveUp,
}

/// Progress of one chunk through possibly short writes.
pub struct ShortWriteTracker {
    chunk_len: usize,
    offset: usize,
    retries_left: usize,
}

impl ShortWriteTracker {
    pub closed spec fn spec_chunk_len(self) -> usize {
        self.chunk_len
    }

    /// How much of the chunk the device has accepted.
    pub closed spec fn spec_offset(self) -> usize {
        self.offset
    }

    pub closed spec fn spec_retries_left(self) -> usize {
        self.retries_left
    }

    pub open spec fn wf(self) -> bool {
        self.spec_offset() <= self.spec_chunk_len()
    }

    /// A fresh tracker for one chunk and a fixed retry budget.
    pub fn new(chunk_len: usize, max_retries: usize) -> (r: ShortWriteTracker)
        ensures
            r.wf(),
            r.spec_chunk_len() == chunk_len,
            r.spec_offset() == 0,
            r.spec_retries_left() == max_retries,
    {
        ShortWriteTracker { chunk_len, offset: 0, retries_left: max_retries }
    }

    /// Bytes of the chunk still to write.
    pub fn remaining(&self) -> (r: usize)
        requires
            self.wf(),
        ensures
            r == self.spec_chunk_len() - self.spec_offset(),
    {
        self.chunk_len - self.offset
    }

    /// One write call accepted `accepted` bytes of the remainder. Progress
    /// is kept — the next attempt starts exactly where this one ended — and
    /// a short result spends one retry; with none left the chunk fails.
    pub fn note_result(&mut self, accepted: usize) -> (r: WriteStep)
        requires
            old(self).wf(),
            old(self).spec_offset() < old(self).spec_chunk_len(),
            accepted <= old(self).spec_chunk_len() - old(self).spec_offset(),
        ensures
            final(self).wf(),
            final(self).spec_chunk_len() == old(self).spec_chunk_len(),
            final(self).spec_offset() == old(self).spec_offset() + accepted,
            r == (if old(self).spec_offset() + accepted == old(self).spec_chunk_len() {
                WriteStep::Done
            } else if old(self).spec_retries_left() == 0 {
                WriteStep::GiveUp
            } else {
                WriteStep::Retry { offset: (old(self).spec_offset() + accepted) as usize }
            }),
            final(self).spec_retries_left() == (if r matches WriteStep::Retry { .. } {
                (old(self).spec_retries_left() - 1) as usize
            } else {
                old(self).spec_retries_left()
            }),
    {
        self.offset = self.offset + accepted;
        if self.offset == self.chunk_len {
            WriteStep::Done
        } else if self.retries_left == 0 {
            WriteStep::GiveUp
        } else {
            self.retries_left = self.retries_left - 1;
            WriteStep::Retry { offset: self.offset }
        }
    }
}

} // verus!
