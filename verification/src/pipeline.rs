//! The flash-and-verify pipeline, run end to end against the simulated
//! device.
//!
//! `flash` streams an image onto the device in block-sized chunks, strictly
//! in order, digesting every byte on the way; it checks the capacity
//! precondition before the first chunk and flushes before completing.
//! `verify` re-reads exactly the written region with the same chunking,
//! recomputes the digest, and reports whether it matches the one captured
//! while flashing — a mismatch is a reported outcome, never an error.

use vstd::prelude::*;
use vstd::arithmetic::div_mod::lemma_basic_div_specific_divisor;
use vstd::slice::slice_subrange;
use crate::device::SimDevice;
use crate::digest::{digest_of, lemma_digest_detects_single_byte_change, Digest};
use crate::flasher::{chunk_count, lemma_chunk_count_step, FlashEngine, FlashStats};
use crate::session::{FlashError, FlashSession, FlashStatus, VerifyError};

verus! {

/// Outcome of a verification pass: whether the fingerprints agreed, and both
/// of them for reporting.
#[derive(PartialEq, Eq, Structural, Clone, Copy, Debug)]
pub struct VerificationResult {
    pub matched: bool,
    pub source_digest: Digest,
    pub device_digest: Digest,
}

/// Index of the chunk whose device write is armed to fail, if any of the `n`
/// writes a flash will issue hits the armed call index; `wd0` is the number
/// of write calls the device had already seen.
pub open spec fn failing_chunk(fw: Option<usize>, wd0: int, n: int) -> Option<int> {
    match fw {
        Some(k) => if wd0 <= k < wd0 + n {
            Some(k - wd0)
        } else {
            None
        },
        None => None,
    }
}

/// A flash issues no more chunk writes than the image has bytes.
pub proof fn lemma_chunk_count_le_size(size: int, block: int)
    requires
        size >= 0,
        block >= 1,
    ensures
        0 <= chunk_count(size, block) <= size,
{
    let n = chunk_count(size, block);
    vstd::arithmetic::div_mod::lemma_fundamental_div_mod(size + block - 1, block);
    vstd::arithmetic::div_mod::lemma_mod_bound(size + block - 1, block);
    vstd::arithmetic::div_mod::lemma_div_is_ordered(0, size + block - 1, block);
    lemma_basic_div_specific_divisor(block);
    if n > size {
        // Then block * n covers at least one block per byte and one more,
        // which exceeds the dividend: a contradiction.
        vstd::arithmetic::mul::lemma_mul_inequality(size + 1, n, block);
        vstd::arithmetic::mul::lemma_mul_is_distributive_add_other_way(block, size, 1);
        vstd::arithmetic::mul::lemma_mul_is_commutative(size + 1, block);
        vstd::arithmetic::mul::lemma_mul_is_commutative(n, block);
        vstd::arithmetic::mul::lemma_mul_is_commutative(size, block);
        vstd::arithmetic::mul::lemma_mul_inequality(1, block, size);
        assert(false);
    }
}

/// Write `source` to the device in `block`-byte chunks, in order, digesting
/// every byte, with the capacity check first and a flush before completion.
/// Returns the finished session and either the stats of a completed flash or
/// the error that ended it, with the bytes written up to that point.
pub fn flash(source: &[u8], device: &mut SimDevice, block: usize) -> (r: (
    FlashSession,
    Result<FlashStats, FlashError>,
))
    requires
        block >= 1,
        old(device).spec_writes_done() + chunk_count(source@.len() as int, block as int)
            <= usize::MAX,
    ensures
        final(device).spec_capacity() == old(device).spec_capacity(),
        final(device).spec_fail_on_write() == old(device).spec_fail_on_write(),
        final(device).spec_fail_flush() == old(device).spec_fail_flush(),
        // An image too large is rejected before any write: a capacity error,
        // the device untouched, zero bytes written.
        source@.len() > old(device).spec_capacity() ==> {
            &&& r.1 == Err::<FlashStats, FlashError>(
                FlashError::Capacity {
                    image_size: source@.len() as usize,
                    device_capacity: old(device).spec_capacity() as usize,
                },
            )
            &&& r.0.spec_status() == FlashStatus::Failed
            &&& r.0.spec_bytes_written() == 0
            &&& final(device).contents() == old(device).contents()
            &&& final(device).spec_writes_done() == old(device).spec_writes_done()
        },
        // No armed write failure and a sound flush: the image lands in full,
        // bytes beyond it keep their old values, and the stats carry the
        // digest of the whole image.
        (source@.len() <= old(device).spec_capacity() && failing_chunk(
            old(device).spec_fail_on_write(),
            old(device).spec_writes_done() as int,
            chunk_count(source@.len() as int, block as int),
        ) is None && !old(device).spec_fail_flush()) ==> {
            &&& r.1 == Ok::<FlashStats, FlashError>(
                FlashStats { bytes_written: source@.len() as usize, digest: digest_of(source@) },
            )
            &&& r.0.spec_status() == FlashStatus::Completed
            &&& r.0.spec_bytes_written() == source@.len()
            &&& final(device).contents() == source@ + old(device).contents().skip(
                source@.len() as int,
            )
            &&& final(device).spec_writes_done() == old(device).spec_writes_done() + chunk_count(
                source@.len() as int,
                block as int,
            )
        },
        // An armed write failure at chunk `i` stops the flash there: exactly
        // the `i` whole chunks before it are on the device.
        (source@.len() <= old(device).spec_capacity() && failing_chunk(
            old(device).spec_fail_on_write(),
            old(device).spec_writes_done() as int,
            chunk_count(source@.len() as int, block as int),
        ) matches Some(i)) ==> {
            &&& r.1 == Err::<FlashStats, FlashError>(
                FlashError::DeviceWrite { bytes_written: r.0.spec_bytes_written() },
            )
            &&& r.0.spec_status() == FlashStatus::Failed
            &&& r.0.spec_bytes_written() == failing_chunk(
                old(device).spec_fail_on_write(),
                old(device).spec_writes_done() as int,
                chunk_count(source@.len() as int, block as int),
            )->Some_0 * block
            &&& final(device).contents() == source@.subrange(
                0,
                failing_chunk(
                    old(device).spec_fail_on_write(),
                    old(device).spec_writes_done() as int,
                    chunk_count(source@.len() as int, block as int),
                )->Some_0 * block,
            ) + old(device).contents().skip(
                failing_chunk(
                    old(device).spec_fail_on_write(),
                    old(device).spec_writes_done() as int,
                    chunk_count(source@.len() as int, block as int),
                )->Some_0 * block,
            )
            &&& final(device).spec_writes_done() == old(device).spec_writes_done() + failing_chunk(
                old(device).spec_fail_on_write(),
                old(device).spec_writes_done() as int,
                chunk_count(source@.len() as int, block as int),
            )->Some_0 + 1
        },
        // A failing flush ends the session after all chunks were written:
        // the data is on the device but not durably, and the session fails.
        (source@.len() <= old(device).spec_capacity() && failing_chunk(
            old(device).spec_fail_on_write(),
            old(device).spec_writes_done() as int,
            chunk_count(source@.len() as int, block as int),
        ) is None && old(device).spec_fail_flush()) ==> {
            &&& r.1 == Err::<FlashStats, FlashError>(
                FlashError::Flush { bytes_written: source@.len() as usize },
            )
            &&& r.0.spec_status() == FlashStatus::Failed
            &&& r.0.spec_bytes_written() == source@.len()
            &&& final(device).contents() == source@ + old(device).contents().skip(
                source@.len() as int,
            )
            &&& final(device).spec_writes_done() == old(device).spec_writes_done() + chunk_count(
                source@.len() as int,
                block as int,
            )
        },
{
    let size = source.len();
    let cap = device.capacity();
    let ghost wd0 = device.spec_writes_done() as int;
    let ghost n = chunk_count(size as int, block as int);
    let ghost orig = device.contents();
    let ghost fw = device.spec_fail_on_write();
    let ghost ff = device.spec_fail_flush();
    let mut engine = FlashEngine::new(size, block);
    match engine.start(cap) {
        Err(e) => {
            return (engine.session(), Err(e));
        },
        Ok(()) => {},
    }
    let ghost mut ci: int = 0;
    let mut pos: usize = 0;
    proof {
        lemma_chunk_count_le_size(size as int, block as int);
        assert(source@.subrange(0, 0) =~= Seq::<u8>::empty());
        assert(device.contents().subrange(0, 0) =~= source@.subrange(0, 0));
        assert(device.contents().skip(0) =~= orig.skip(0));
    }
    while pos < size
        invariant
            engine.wf(),
            engine.spec_status() == FlashStatus::InProgress,
            engine.spec_size() == size,
            engine.spec_block() == block,
            engine.spec_written() == pos,
            engine.bytes() == source@.subrange(0, pos as int),
            size == source@.len(),
            block >= 1,
            pos <= size,
            0 <= ci <= n,
            pos < size ==> pos == ci * block,
            pos == size ==> ci == n,
            n == chunk_count(size as int, block as int),
            wd0 + n <= usize::MAX,
            orig == old(device).contents(),
            fw == old(device).spec_fail_on_write(),
            ff == old(device).spec_fail_flush(),
            wd0 == old(device).spec_writes_done(),
            device.spec_capacity() == orig.len(),
            orig.len() == cap,
            size <= cap,
            device.spec_writes_done() == wd0 + ci,
            device.spec_fail_on_write() == fw,
            device.spec_fail_flush() == ff,
            device.contents().subrange(0, pos as int) == source@.subrange(0, pos as int),
            device.contents().skip(pos as int) == orig.skip(pos as int),
            fw matches Some(k) ==> !(wd0 <= k < wd0 + ci),
        decreases size - pos,
    {
        let len = engine.next_chunk_len();
        let chunk = slice_subrange(source, pos, pos + len);
        let ghost pre = device.contents();
        proof {
            lemma_chunk_count_step(size as int, block as int, ci);
            vstd::arithmetic::mul::lemma_mul_is_distributive_add_other_way(block as int, ci, 1);
        }
        let ok = device.write_at(pos, chunk);
        if ok {
            engine.chunk_written(chunk);
            proof {
                let p = pos as int;
                let l = len as int;
                assert forall|j: int| 0 <= j < p + l implies device.contents()[j] == source@[j] by {
                    if j < p {
                        assert(pre.subrange(0, p)[j] == source@.subrange(0, p)[j]);
                    }
                }
                assert(device.contents().subrange(0, p + l) =~= source@.subrange(0, p + l));
                assert forall|j: int| p + l <= j < orig.len() implies device.contents()[j]
                    == orig[j] by {
                    assert(pre.skip(p)[j - p] == orig.skip(p)[j - p]);
                }
                assert(device.contents().skip(p + l) =~= orig.skip(p + l));
                assert(source@.subrange(0, p) + source@.subrange(p, p + l) =~= source@.subrange(
                    0,
                    p + l,
                ));
                ci = ci + 1;
            }
            pos = pos + len;
        } else {
            let e = engine.write_failed();
            proof {
                assert(fw == Some((wd0 + ci) as usize));
                assert(failing_chunk(fw, wd0, n) == Some(ci));
                assert(device.contents() =~= source@.subrange(0, ci * block) + orig.skip(
                    ci * block,
                ));
            }
            return (engine.session(), Err(e));
        }
    }
    proof {
        assert(source@.subrange(0, size as int) =~= source@);
    }
    engine.begin_flush();
    let flush_ok = device.flush();
    proof {
        assert(device.contents() =~= source@ + orig.skip(size as int));
    }
    if flush_ok {
        let stats = engine.flush_ok();
        (engine.session(), Ok(stats))
    } else {
        let e = engine.flush_failed();
        (engine.session(), Err(e))
    }
}

/// Re-read the first `image_size` bytes of the device in `block`-byte
/// chunks, recompute the digest, and compare it with the one captured while
/// flashing. Only runs against a completed session; a region that reaches
/// past the device is a read-back error, a digest mismatch is a normal
/// result.
pub fn verify(
    session: &FlashSession,
    device: &SimDevice,
    image_size: usize,
    source_digest: &Digest,
    block: usize,
) -> (r: Result<VerificationResult, VerifyError>)
    requires
        block >= 1,
        session.spec_status() == FlashStatus::Completed,
    ensures
        image_size > device.spec_capacity() ==> r == Err::<VerificationResult, VerifyError>(
            VerifyError::ReadBack { bytes_read: 0usize },
        ),
        image_size <= device.spec_capacity() ==> r == Ok::<VerificationResult, VerifyError>(
            VerificationResult {
                matched: digest_of(device.contents().subrange(0, image_size as int))
                    == *source_digest,
                source_digest: *source_digest,
                device_digest: digest_of(device.contents().subrange(0, image_size as int)),
            },
        ),
{
    if image_size > device.capacity() {
        return Err(VerifyError::ReadBack { bytes_read: 0 });
    }
    let mut digest = crate::digest::DigestState::new();
    let mut pos: usize = 0;
    proof {
        assert(device.contents().subrange(0, 0) =~= Seq::<u8>::empty());
    }
    while pos < image_size
        invariant
            image_size <= device.spec_capacity(),
            block >= 1,
            pos <= image_size,
            digest.wf(),
            digest.bytes() == device.contents().subrange(0, pos as int),
        decreases image_size - pos,
    {
        let rest = image_size - pos;
        let len = if rest < block {
            rest
        } else {
            block
        };
        let chunk = device.read_at(pos, len);
        digest.update(chunk.as_slice());
        proof {
            assert(device.contents().subrange(0, pos as int) + device.contents().subrange(
                pos as int,
                pos + len,
            ) =~= device.contents().subrange(0, pos + len));
        }
        pos = pos + len;
    }
    let device_digest = digest.finish();
    let matched = device_digest == *source_digest;
    Ok(VerificationResult { matched, source_digest: *source_digest, device_digest })
}

/// A successful flash followed by a verification pass matches: the flashed
/// region is byte-for-byte the image, so its digest is the captured one.
pub proof fn lemma_flash_then_verify_matches(src: Seq<u8>, dev: Seq<u8>, d: Digest)
    requires
        src.len() <= dev.len(),
        dev.subrange(0, src.len() as int) == src,
        d == digest_of(src),
    ensures
        digest_of(dev.subrange(0, src.len() as int)) == d,
{
}

/// Any single-byte mutation of the device within the written region after a
/// successful flash makes a later verification pass report a mismatch.
pub proof fn lemma_mutation_breaks_verification(src: Seq<u8>, dev: Seq<u8>, i: int, d: Digest)
    requires
        src.len() <= dev.len(),
        0 <= i < src.len(),
        dev[i] != src[i],
        forall|j: int| 0 <= j < src.len() && j != i ==> dev[j] == src[j],
        d == digest_of(src),
    ensures
        digest_of(dev.subrange(0, src.len() as int)) != d,
{
    let region = dev.subrange(0, src.len() as int);
    assert forall|j: int| 0 <= j < src.len() && j != i implies region[j] == src[j] by {}
    lemma_digest_detects_single_byte_change(region, src, i);
}

} // verus!
