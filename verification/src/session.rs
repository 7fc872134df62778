//! Flash session state machine and the error taxonomy of the pipeline.
//!
//! A `FlashSession` advances monotonically through
//! `Pending -> InProgress -> Flushing -> Completed`, with `Failed` reachable
//! from every non-terminal state; no transition ever moves backwards. The
//! session also carries the count of bytes durably handed to the device so
//! far, which every error report includes.

use vstd::prelude::*;

verus! {

/// Phase of a flash session. The order of the variants is the order in which
/// a session passes through them.
#[derive(PartialEq, Eq, Structural, Clone, Copy, Debug)]
pub enum FlashStatus {
    Pending,
    InProgress,
    Flushing,
    Completed,
    Failed,
}

/// Position of a status on the one-way track of a session; `Failed` is
/// terminal and ranks last.
pub open spec fn status_rank(s: FlashStatus) -> int {
    match s {
        FlashStatus::Pending => 0,
        FlashStatus::InProgress => 1,
        FlashStatus::Flushing => 2,
        FlashStatus::Completed => 3,
        FlashStatus::Failed => 4,
    }
}

/// Statuses in which the session does no further work.
pub open spec fn is_terminal(s: FlashStatus) -> bool {
    s == FlashStatus::Completed || s == FlashStatus::Failed
}

/// Why a flash attempt ended without completing.
#[derive(PartialEq, Eq, Structural, Clone, Copy, Debug)]
pub enum FlashError {
    /// The source image could not be opened.
    SourceOpen,
    /// Reading the source image failed mid-stream.
    SourceRead,
    /// The target device could not be opened exclusively.
    DeviceOpen,
    /// The image does not fit on the device; nothing was written.
    Capacity { image_size: usize, device_capacity: usize },
    /// A device write failed after `bytes_written` bytes had been written.
    DeviceWrite { bytes_written: usize },
    /// The final flush to stable storage failed.
    Flush { bytes_written: usize },
}

/// Why a verification pass could not be carried out at all. A digest
/// mismatch is not an error: it is reported in `VerificationResult`.
#[derive(PartialEq, Eq, Structural, Clone, Copy, Debug)]
pub enum VerifyError {
    /// The device could not be re-opened for the read-back.
    DeviceOpen,
    /// Reading the written region back failed after `bytes_read` bytes.
    ReadBack { bytes_read: usize },
}

/// One flash attempt: its phase and how many bytes the device has accepted.
#[derive(PartialEq, Eq, Structural, Clone, Copy, Debug)]
pub struct FlashSession {
    status: FlashStatus,
    bytes_written: usize,
}

impl FlashSession {
    pub closed spec fn spec_status(self) -> FlashStatus {
        self.status
    }

    pub closed spec fn spec_bytes_written(self) -> usize {
        self.bytes_written
    }

    /// A fresh session that has not checked its precondition yet.
    pub fn new() -> (r: FlashSession)
        ensures
            r.spec_status() == FlashStatus::Pending,
            r.spec_bytes_written() == 0,
    {
        FlashSession { status: FlashStatus::Pending, bytes_written: 0 }
    }

    pub fn status(&self) -> (r: FlashStatus)
        ensures
            r == self.spec_status(),
    {
        self.status
    }

    pub fn bytes_written(&self) -> (r: usize)
        ensures
            r == self.spec_bytes_written(),
    {
        self.bytes_written
    }

    /// The capacity precondition held: writing begins.
    pub fn start(&mut self)
        requires
            old(self).spec_status() == FlashStatus::Pending,
        ensures
            final(self).spec_status() == FlashStatus::InProgress,
            final(self).spec_bytes_written() == old(self).spec_bytes_written(),
            status_rank(final(self).spec_status()) >= status_rank(old(self).spec_status()),
    {
        self.status = FlashStatus::InProgress;
    }

    /// One chunk was written in full; account for its bytes.
    pub fn record_written(&mut self, n: usize)
        requires
            old(self).spec_status() == FlashStatus::InProgress,
            old(self).spec_bytes_written() + n <= usize::MAX,
        ensures
            final(self).spec_status() == FlashStatus::InProgress,
            final(self).spec_bytes_written() == old(self).spec_bytes_written() + n,
            status_rank(final(self).spec_status()) >= status_rank(old(self).spec_status()),
    {
        self.bytes_written = self.bytes_written + n;
    }

    /// The last chunk was written; the session now awaits the flush.
    pub fn begin_flush(&mut self)
        requires
            old(self).spec_status() == FlashStatus::InProgress,
        ensures
            final(self).spec_status() == FlashStatus::Flushing,
            final(self).spec_bytes_written() == old(self).spec_bytes_written(),
            status_rank(final(self).spec_status()) >= status_rank(old(self).spec_status()),
    {
        self.status = FlashStatus::Flushing;
    }

    /// The flush reached stable storage: the session is complete.
    pub fn complete(&mut self)
        requires
            old(self).spec_status() == FlashStatus::Flushing,
        ensures
            final(self).spec_status() == FlashStatus::Completed,
            final(self).spec_bytes_written() == old(self).spec_bytes_written(),
            status_rank(final(self).spec_status()) >= status_rank(old(self).spec_status()),
    {
        self.status = FlashStatus::Completed;
    }

    /// Any failure ends the session; the byte count keeps its last value.
    pub fn fail(&mut self)
        requires
            !is_terminal(old(self).spec_status()),
        ensures
            final(self).spec_status() == FlashStatus::Failed,
            final(self).spec_bytes_written() == old(self).spec_bytes_written(),
            status_rank(final(self).spec_status()) >= status_rank(old(self).spec_status()),
    {
        self.status = FlashStatus::Failed;
    }
}

} // verus!
