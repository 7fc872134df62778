//! An in-memory block device.
//!
//! The simulated device backs the verified pipeline end to end: it holds a
//! fixed-capacity byte array, counts write calls, and can be armed to refuse
//! a chosen write call or the final flush, which is how write-failure and
//! flush-failure paths of the flasher are exercised. Reads are a pure
//! function of the device contents, so reading the same region twice without
//! an intervening write returns byte-identical results.

use vstd::prelude::*;

verus! {

/// A fixed-capacity simulated block device with optional fault injection.
pub struct SimDevice {
    data: Vec<u8>,
    writes_done: usize,
    fail_on_write: Option<usize>,
    fail_flush: bool,
}

impl SimDevice {
    /// The bytes currently on the device; its length is the capacity.
    pub closed spec fn contents(self) -> Seq<u8> {
        self.data@
    }

    pub open spec fn spec_capacity(self) -> nat {
        self.contents().len()
    }

    /// How many write calls the device has seen, successful or not.
    pub closed spec fn spec_writes_done(self) -> nat {
        self.writes_done as nat
    }

    /// Which write call (counted from device creation) is armed to fail.
    pub closed spec fn spec_fail_on_write(self) -> Option<usize> {
        self.fail_on_write
    }

    /// Whether the next flush is armed to fail.
    pub closed spec fn spec_fail_flush(self) -> bool {
        self.fail_flush
    }

    /// The next write call fails exactly when the armed write index is the
    /// number of writes already seen.
    pub open spec fn next_write_fails(self) -> bool {
        self.spec_fail_on_write() == Some((self.spec_writes_done() as usize))
    }

    /// A zero-filled device of the given capacity with no faults armed.
    pub fn new(capacity: usize) -> (r: SimDevice)
        ensures
            r.contents() == Seq::new(capacity as nat, |i: int| 0u8),
            r.spec_writes_done() == 0,
            r.spec_fail_on_write() == Option::<usize>::None,
            !r.spec_fail_flush(),
    {
        let data = vec![0u8; capacity];
        proof {
            assert(data@ =~= Seq::new(capacity as nat, |i: int| 0u8));
        }
        SimDevice { data, writes_done: 0, fail_on_write: None, fail_flush: false }
    }

    /// Arm the `k`-th write call (counted from device creation) to fail.
    pub fn arm_write_failure(&mut self, k: usize)
        ensures
            final(self).contents() == old(self).contents(),
            final(self).spec_writes_done() == old(self).spec_writes_done(),
            final(self).spec_fail_on_write() == Some(k),
            final(self).spec_fail_flush() == old(self).spec_fail_flush(),
    {
        self.fail_on_write = Some(k);
    }

    /// Arm the flush to fail.
    pub fn arm_flush_failure(&mut self)
        ensures
            final(self).contents() == old(self).contents(),
            final(self).spec_writes_done() == old(self).spec_writes_done(),
            final(self).spec_fail_on_write() == old(self).spec_fail_on_write(),
            final(self).spec_fail_flush(),
    {
        self.fail_flush = true;
    }

    pub fn capacity(&self) -> (r: usize)
        ensures
            r == self.spec_capacity(),
    {
        self.data.len()
    }

    /// Write one chunk at the given offset. Returns whether the write took:
    /// an armed failure leaves the contents untouched, a successful write
    /// replaces exactly the addressed bytes. Either way the call is counted.
    pub fn write_at(&mut self, offset: usize, chunk: &[u8]) -> (ok: bool)
        requires
            offset + chunk@.len() <= old(self).spec_capacity(),
            old(self).spec_writes_done() < usize::MAX,
        ensures
            ok == !old(self).next_write_fails(),
            final(self).spec_writes_done() == old(self).spec_writes_done() + 1,
            final(self).spec_fail_on_write() == old(self).spec_fail_on_write(),
            final(self).spec_fail_flush() == old(self).spec_fail_flush(),
            final(self).spec_capacity() == old(self).spec_capacity(),
            !ok ==> final(self).contents() == old(self).contents(),
            ok ==> forall|j: int|
                0 <= j < old(self).spec_capacity() ==> final(self).contents()[j] == (
                if offset <= j < offset + chunk@.len() {
                    chunk@[j - offset]
                } else {
                    old(self).contents()[j]
                }),
    {
        let fails = match self.fail_on_write {
            Some(k) => k == self.writes_done,
            None => false,
        };
        self.writes_done = self.writes_done + 1;
        if fails {
            return false;
        }
        let ghost orig = self.data@;
        let ghost wd = self.writes_done;
        let ghost fw = self.fail_on_write;
        let ghost ff = self.fail_flush;
        let cap = self.data.len();
        let mut i: usize = 0;
        while i < chunk.len()
            invariant
                0 <= i <= chunk@.len(),
                offset + chunk@.len() <= cap,
                cap == self.data@.len(),
                self.writes_done == wd,
                self.fail_on_write == fw,
                self.fail_flush == ff,
                self.data@.len() == orig.len(),
                forall|j: int|
                    0 <= j < orig.len() ==> self.data@[j] == (
                    if offset <= j < offset + i {
                        chunk@[j - offset]
                    } else {
                        orig[j]
                    }),
            decreases chunk.len() - i,
        {
            self.data[offset + i] = chunk[i];
            i = i + 1;
        }
        true
    }

    /// Read `len` bytes starting at `offset`. The result is exactly the
    /// addressed region of the device contents and depends on nothing else.
    pub fn read_at(&self, offset: usize, len: usize) -> (r: Vec<u8>)
        requires
            offset + len <= self.spec_capacity(),
        ensures
            r@ == self.contents().subrange(offset as int, offset + len),
    {
        let cap = self.data.len();
        let mut r: Vec<u8> = Vec::new();
        let mut i: usize = 0;
        while i < len
            invariant
                0 <= i <= len,
                offset + len <= cap,
                cap == self.data@.len(),
                r@ == self.data@.subrange(offset as int, offset + i),
            decreases len - i,
        {
            r.push(self.data[offset + i]);
            proof {
                assert(r@ =~= self.data@.subrange(offset as int, offset + i + 1));
            }
            i = i + 1;
        }
        r
    }

    /// Force written data to stable storage. In the simulation this only
    /// reports the armed outcome; the contents never change.
    pub fn flush(&mut self) -> (ok: bool)
        ensures
            ok == !old(self).spec_fail_flush(),
            final(self).contents() == old(self).contents(),
            final(self).spec_writes_done() == old(self).spec_writes_done(),
            final(self).spec_fail_on_write() == old(self).spec_fail_on_write(),
            final(self).spec_fail_flush() == old(self).spec_fail_flush(),
    {
        !self.fail_flush
    }
}

/// Reading a region twice without an intervening write yields byte-identical
/// results: the read is a function of the device contents alone.
pub proof fn lemma_reread_is_stable(dev: Seq<u8>, offset: int, len: int, r1: Seq<u8>, r2: Seq<u8>)
    requires
        0 <= offset,
        0 <= len,
        offset + len <= dev.len(),
        r1 == dev.subrange(offset, offset + len),
        r2 == dev.subrange(offset, offset + len),
    ensures
        r1 == r2,
{
}

} // verus!
