//! The flashing engine: chunk accounting, digest tracking, and the session
//! state machine, independent of where the bytes come from or go to.
//!
//! The engine owns the `FlashSession` and the running digest. A driver — the
//! verified in-memory pipeline, or an unverified shell working against real
//! hardware — feeds it one chunk at a time in device order and reports each
//! write, the flush, and any I/O failure; the engine decides the chunk sizes,
//! accounts for the bytes the device accepted, and advances the session
//! through its one-way states. Every outcome the driver can report has a
//! method here, so the decision logic is verified for every value the
//! surrounding I/O may produce.

use vstd::prelude::*;
use vstd::arithmetic::div_mod::{
    lemma_fundamental_div_mod, lemma_mod_add_multiples_vanish, lemma_mod_bound,
};
use vstd::arithmetic::mul::{
    lemma_mul_is_distributive_add_other_way, lemma_mul_strict_inequality_converse,
};
use crate::digest::{digest_of, Digest, DigestState};
use crate::session::{status_rank, FlashError, FlashSession, FlashStatus};

verus! {

/// What a finished flash reports: how many bytes the device accepted and the
/// digest of the streamed image, kept for the later verification pass.
#[derive(PartialEq, Eq, Structural, Clone, Copy, Debug)]
pub struct FlashStats {
    pub bytes_written: usize,
    pub digest: Digest,
}

/// Number of chunks needed to cover `size` bytes: `size / block`, rounded up.
pub open spec fn chunk_count(size: int, block: int) -> int
    recommends
        block >= 1,
{
    (size + block - 1) / block
}

/// The count of chunks grows exactly when a whole chunk is outstanding: with
/// `ci` full chunks written and bytes still left, at least one more chunk is
/// due, and it is the last one exactly when one more block covers the rest.
pub proof fn lemma_chunk_count_step(size: int, block: int, ci: int)
    requires
        block >= 1,
        0 <= ci,
        ci * block < size,
    ensures
        ci + 1 <= chunk_count(size, block),
        size <= (ci + 1) * block ==> ci + 1 == chunk_count(size, block),
{
    let n = chunk_count(size, block);
    lemma_fundamental_div_mod(size + block - 1, block);
    lemma_mod_bound(size + block - 1, block);
    let r = (size + block - 1) % block;
    lemma_mul_is_distributive_add_other_way(block, ci, 1);
    assert((ci + 1) * block < (n + 1) * block) by {
        lemma_mul_is_distributive_add_other_way(block, n, 1);
    };
    lemma_mul_strict_inequality_converse(ci + 1, n + 1, block);
    if size <= (ci + 1) * block {
        assert(n * block < (ci + 2) * block) by {
            lemma_mul_is_distributive_add_other_way(block, ci + 2, 0);
            lemma_mul_is_distributive_add_other_way(block, ci + 1, 1);
        };
        lemma_mul_strict_inequality_converse(n, ci + 2, block);
    }
}

/// Drives one flash attempt: checks the capacity precondition, hands out
/// chunk lengths, digests the streamed bytes, and moves the session forward.
pub struct FlashEngine {
    size: usize,
    block: usize,
    session: FlashSession,
    digest: DigestState,
}

impl FlashEngine {
    /// Total bytes the image holds.
    pub closed spec fn spec_size(self) -> usize {
        self.size
    }

    /// Bytes per chunk, the device writer's block size.
    pub closed spec fn spec_block(self) -> usize {
        self.block
    }

    /// The session this engine is driving.
    pub closed spec fn spec_session(self) -> FlashSession {
        self.session
    }

    pub open spec fn spec_status(self) -> FlashStatus {
        self.spec_session().spec_status()
    }

    /// Bytes written to the device so far.
    pub open spec fn spec_written(self) -> usize {
        self.spec_session().spec_bytes_written()
    }

    /// The image bytes streamed through the engine so far.
    pub closed spec fn bytes(self) -> Seq<u8> {
        self.digest.bytes()
    }

    /// Internal consistency: the digest covers exactly the written bytes,
    /// writing never passes the image size, chunks are written whole, and a
    /// flushing or completed session has the whole image written.
    pub closed spec fn wf(self) -> bool {
        &&& self.digest.wf()
        &&& self.block >= 1
        &&& self.session.spec_bytes_written() == self.digest.bytes().len()
        &&& self.digest.bytes().len() <= self.size
        &&& (self.session.spec_status() == FlashStatus::Pending ==> self.digest.bytes().len()
            == 0)
        &&& (self.session.spec_status() == FlashStatus::InProgress ==> (
        self.session.spec_bytes_written() as int % self.block as int == 0
            || self.session.spec_bytes_written() == self.size))
        &&& ((self.session.spec_status() == FlashStatus::Flushing || self.session.spec_status()
            == FlashStatus::Completed) ==> self.session.spec_bytes_written() == self.size)
    }

    /// A fresh engine for an image of `size` bytes written in `block`-byte
    /// chunks. The session starts in `Pending`.
    pub fn new(size: usize, block: usize) -> (r: FlashEngine)
        requires
            block >= 1,
        ensures
            r.wf(),
            r.spec_size() == size,
            r.spec_block() == block,
            r.spec_status() == FlashStatus::Pending,
            r.spec_written() == 0,
            r.bytes() == Seq::<u8>::empty(),
    {
        FlashEngine { size, block, session: FlashSession::new(), digest: DigestState::new() }
    }

    /// Check the capacity precondition before any byte moves: the session
    /// enters `InProgress` exactly when the image fits, and otherwise fails
    /// at once with a capacity error, no write issued.
    pub fn start(&mut self, device_capacity: usize) -> (r: Result<(), FlashError>)
        requires
            old(self).wf(),
            old(self).spec_status() == FlashStatus::Pending,
        ensures
            final(self).wf(),
            final(self).spec_size() == old(self).spec_size(),
            final(self).spec_block() == old(self).spec_block(),
            final(self).spec_written() == 0,
            final(self).bytes() == old(self).bytes(),
            status_rank(final(self).spec_status()) >= status_rank(old(self).spec_status()),
            old(self).spec_size() <= device_capacity ==> r == Ok::<(), FlashError>(())
                && final(self).spec_status() == FlashStatus::InProgress,
            old(self).spec_size() > device_capacity ==> r == Err::<(), FlashError>(
                FlashError::Capacity {
                    image_size: old(self).spec_size(),
                    device_capacity,
                },
            ) && final(self).spec_status() == FlashStatus::Failed,
    {
        if self.size <= device_capacity {
            self.session.start();
            Ok(())
        } else {
            self.session.fail();
            Err(FlashError::Capacity { image_size: self.size, device_capacity })
        }
    }

    /// Whether every byte of the image has been written.
    pub fn done(&self) -> (r: bool)
        ensures
            r == (self.spec_written() == self.spec_size()),
    {
        self.session.bytes_written() == self.size
    }

    /// Length of the next chunk: a whole block, or the shorter tail of the
    /// image — never past its end.
    pub fn next_chunk_len(&self) -> (r: usize)
        requires
            self.wf(),
            self.spec_written() < self.spec_size(),
        ensures
            r == if self.spec_size() - self.spec_written() < self.spec_block() {
                (self.spec_size() - self.spec_written()) as usize
            } else {
                self.spec_block()
            },
            1 <= r <= self.spec_block(),
            self.spec_written() + r <= self.spec_size(),
    {
        let rest = self.size - self.session.bytes_written();
        if rest < self.block {
            rest
        } else {
            self.block
        }
    }

    /// The device accepted one whole chunk: digest it and account for it.
    pub fn chunk_written(&mut self, chunk: &[u8])
        requires
            old(self).wf(),
            old(self).spec_status() == FlashStatus::InProgress,
            old(self).spec_written() < old(self).spec_size(),
            chunk@.len() == if old(self).spec_size() - old(self).spec_written() < old(
                self,
            ).spec_block() {
                old(self).spec_size() - old(self).spec_written()
            } else {
                old(self).spec_block() as int
            },
        ensures
            final(self).wf(),
            final(self).spec_size() == old(self).spec_size(),
            final(self).spec_block() == old(self).spec_block(),
            final(self).spec_status() == FlashStatus::InProgress,
            final(self).spec_written() == old(self).spec_written() + chunk@.len(),
            final(self).bytes() == old(self).bytes() + chunk@,
    {
        proof {
            let w = self.session.spec_bytes_written() as int;
            let b = self.block as int;
            // A running total aligned to the block stays aligned after one
            // more whole block.
            if w + chunk@.len() < self.size {
                lemma_mod_add_multiples_vanish(w, b);
            }
        }
        self.digest.update(chunk);
        self.session.record_written(chunk.len());
    }

    /// The last chunk is on the device: the session moves to `Flushing`.
    pub fn begin_flush(&mut self)
        requires
            old(self).wf(),
            old(self).spec_status() == FlashStatus::InProgress,
            old(self).spec_written() == old(self).spec_size(),
        ensures
            final(self).wf(),
            final(self).spec_size() == old(self).spec_size(),
            final(self).spec_block() == old(self).spec_block(),
            final(self).spec_status() == FlashStatus::Flushing,
            final(self).spec_written() == old(self).spec_written(),
            final(self).bytes() == old(self).bytes(),
    {
        self.session.begin_flush();
    }

    /// The flush reached stable storage: the session completes and the
    /// stats carry the digest of the whole streamed image.
    pub fn flush_ok(&mut self) -> (stats: FlashStats)
        requires
            old(self).wf(),
            old(self).spec_status() == FlashStatus::Flushing,
        ensures
            final(self).wf(),
            final(self).spec_size() == old(self).spec_size(),
            final(self).spec_block() == old(self).spec_block(),
            final(self).spec_status() == FlashStatus::Completed,
            final(self).spec_written() == old(self).spec_size(),
            final(self).bytes() == old(self).bytes(),
            stats.bytes_written == old(self).spec_size(),
            stats.digest == digest_of(old(self).bytes()),
    {
        self.session.complete();
        FlashStats { bytes_written: self.session.bytes_written(), digest: self.digest.finish() }
    }

    /// The flush failed: the session fails and the error reports how many
    /// bytes had been written (all of them, though not durably).
    pub fn flush_failed(&mut self) -> (e: FlashError)
        requires
            old(self).wf(),
            old(self).spec_status() == FlashStatus::Flushing,
        ensures
            final(self).wf(),
            final(self).spec_status() == FlashStatus::Failed,
            final(self).spec_written() == old(self).spec_written(),
            final(self).bytes() == old(self).bytes(),
            e == (FlashError::Flush { bytes_written: old(self).spec_written() }),
    {
        self.session.fail();
        FlashError::Flush { bytes_written: self.session.bytes_written() }
    }

    /// A chunk write failed: the session fails and the error reports the
    /// bytes written before the failing chunk.
    pub fn write_failed(&mut self) -> (e: FlashError)
        requires
            old(self).wf(),
            old(self).spec_status() == FlashStatus::InProgress,
        ensures
            final(self).wf(),
            final(self).spec_status() == FlashStatus::Failed,
            final(self).spec_written() == old(self).spec_written(),
            final(self).bytes() == old(self).bytes(),
            e == (FlashError::DeviceWrite { bytes_written: old(self).spec_written() }),
    {
        self.session.fail();
        FlashError::DeviceWrite { bytes_written: self.session.bytes_written() }
    }

    /// Reading the source failed mid-stream: the session fails; nothing is
    /// retried.
    pub fn read_failed(&mut self) -> (e: FlashError)
        requires
            old(self).wf(),
            old(self).spec_status() == FlashStatus::InProgress,
        ensures
            final(self).wf(),
            final(self).spec_status() == FlashStatus::Failed,
            final(self).spec_written() == old(self).spec_written(),
            final(self).bytes() == old(self).bytes(),
            e == FlashError::SourceRead,
    {
        self.session.fail();
        FlashError::SourceRead
    }

    /// A copy of the session, for reporting.
    pub fn session(&self) -> (r: FlashSession)
        ensures
            r == self.spec_session(),
    {
        self.session
    }
}

} // verus!
