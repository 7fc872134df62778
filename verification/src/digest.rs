//! Streaming digest over the bytes of a disk image.
//!
//! The digest is a fixed-size fingerprint computed incrementally while the
//! image is streamed: a wrapping byte count, a wrapping sum of the bytes, and
//! a wrapping sum of the running sums (a Fletcher-style second component that
//! makes the fingerprint sensitive to byte order). Its one proved detection
//! guarantee, which the verifier relies on, is that two equally long byte
//! sequences that differ in exactly one byte never share a digest.

use vstd::prelude::*;
use vstd::arithmetic::div_mod::{
    lemma_add_mod_noop, lemma_mod_add_multiples_vanish, lemma_mod_equivalence, lemma_small_mod,
};
use vstd::wrapping::u64_specs;

verus! {

/// One more than `u64::MAX`: the modulus of all wrapping components.
pub open spec fn digest_modulus() -> int {
    0x1_0000_0000_0000_0000
}

/// Number of bytes digested, reduced modulo `digest_modulus`.
pub open spec fn wrap_count(s: Seq<u8>) -> u64
    decreases s.len(),
{
    if s.len() == 0 {
        0u64
    } else {
        u64_specs::wrapping_add(wrap_count(s.drop_last()), 1u64)
    }
}

/// Wrapping sum of the bytes.
pub open spec fn wrap_sum(s: Seq<u8>) -> u64
    decreases s.len(),
{
    if s.len() == 0 {
        0u64
    } else {
        u64_specs::wrapping_add(wrap_sum(s.drop_last()), s.last() as u64)
    }
}

/// Wrapping sum of the running byte sums, taken after each byte.
pub open spec fn wrap_mix(s: Seq<u8>) -> u64
    decreases s.len(),
{
    if s.len() == 0 {
        0u64
    } else {
        u64_specs::wrapping_add(wrap_mix(s.drop_last()), wrap_sum(s))
    }
}

/// Exact mathematical sum of the bytes, the model behind `wrap_sum`.
pub open spec fn byte_sum(s: Seq<u8>) -> int
    decreases s.len(),
{
    if s.len() == 0 {
        0
    } else {
        byte_sum(s.drop_last()) + s.last()
    }
}

/// The finished fingerprint of a byte sequence.
#[derive(PartialEq, Eq, Structural, Clone, Copy, Debug)]
pub struct Digest {
    pub count: u64,
    pub sum: u64,
    pub mix: u64,
}

/// The digest that streaming a whole byte sequence produces.
pub open spec fn digest_of(s: Seq<u8>) -> Digest {
    Digest { count: wrap_count(s), sum: wrap_sum(s), mix: wrap_mix(s) }
}

proof fn lemma_push_drop_last(s: Seq<u8>, b: u8)
    ensures
        s.push(b).drop_last() == s,
        s.push(b).last() == b,
{
    assert(s.push(b).drop_last() =~= s);
}

/// `byte_sum` never goes negative and stays below 256 times the length.
proof fn lemma_byte_sum_bounds(s: Seq<u8>)
    ensures
        0 <= byte_sum(s) <= 255 * s.len(),
    decreases s.len(),
{
    if s.len() > 0 {
        lemma_byte_sum_bounds(s.drop_last());
    }
}

/// The wrapping sum is the exact sum reduced modulo `digest_modulus`.
proof fn lemma_wrap_sum_is_mod(s: Seq<u8>)
    ensures
        wrap_sum(s) == byte_sum(s) % digest_modulus(),
    decreases s.len(),
{
    let m = digest_modulus();
    if s.len() == 0 {
        lemma_small_mod(0, m as nat);
    } else {
        let d = s.drop_last();
        let b = s.last();
        lemma_wrap_sum_is_mod(d);
        lemma_byte_sum_bounds(d);
        let x = wrap_sum(d) as int;
        // x == byte_sum(d) % m, so replacing byte_sum(d) by x leaves the
        // remainder of the sum unchanged.
        lemma_add_mod_noop(byte_sum(d), b as int, m);
        lemma_add_mod_noop(x, b as int, m);
        lemma_small_mod((x % m) as nat, m as nat);
        assert((x + b) % m == byte_sum(s) % m);
        if x + b < m {
            lemma_small_mod((x + b) as nat, m as nat);
        } else {
            // x + b < 2m, so one subtraction of m lands in [0, m).
            lemma_mod_add_multiples_vanish(x + b - m, m);
            lemma_small_mod((x + b - m) as nat, m as nat);
        }
    }
}

/// Two equally long sequences that agree everywhere but at `i` have exact
/// sums that differ by exactly the difference of the bytes at `i`.
proof fn lemma_byte_sum_single_diff(s1: Seq<u8>, s2: Seq<u8>, i: int)
    requires
        s1.len() == s2.len(),
        0 <= i < s1.len(),
        forall|j: int| 0 <= j < s1.len() && j != i ==> s1[j] == s2[j],
    ensures
        byte_sum(s1) - byte_sum(s2) == s1[i] - s2[i],
    decreases s1.len(),
{
    if i == s1.len() - 1 {
        assert(s1.drop_last() =~= s2.drop_last());
    } else {
        lemma_byte_sum_single_diff(s1.drop_last(), s2.drop_last(), i);
    }
}

/// Any single-byte change to a byte sequence changes its digest: the exact
/// sums then differ by a nonzero amount smaller than the modulus, so the
/// wrapping sums cannot coincide.
pub proof fn lemma_digest_detects_single_byte_change(s1: Seq<u8>, s2: Seq<u8>, i: int)
    requires
        s1.len() == s2.len(),
        0 <= i < s1.len(),
        s1[i] != s2[i],
        forall|j: int| 0 <= j < s1.len() && j != i ==> s1[j] == s2[j],
    ensures
        digest_of(s1) != digest_of(s2),
{
    let m = digest_modulus();
    lemma_byte_sum_single_diff(s1, s2, i);
    lemma_wrap_sum_is_mod(s1);
    lemma_wrap_sum_is_mod(s2);
    let a = byte_sum(s1);
    let b = byte_sum(s2);
    let d = a - b;
    if wrap_sum(s1) == wrap_sum(s2) {
        lemma_mod_equivalence(a, b, m);
        assert(d % m == 0);
        if d > 0 {
            lemma_small_mod(d as nat, m as nat);
        } else {
            lemma_mod_add_multiples_vanish(d, m);
            lemma_small_mod((d + m) as nat, m as nat);
        }
        assert(false);
    }
}

/// Incremental digest computation, fed chunk by chunk while an image streams
/// through the pipeline.
pub struct DigestState {
    count: u64,
    sum: u64,
    mix: u64,
    bytes: Ghost<Seq<u8>>,
}

impl DigestState {
    /// The bytes this state has digested so far.
    pub closed spec fn bytes(self) -> Seq<u8> {
        self.bytes@
    }

    /// The running components match the digested bytes.
    pub closed spec fn wf(self) -> bool {
        &&& self.count == wrap_count(self.bytes@)
        &&& self.sum == wrap_sum(self.bytes@)
        &&& self.mix == wrap_mix(self.bytes@)
    }

    /// A fresh state that has digested nothing.
    pub fn new() -> (r: DigestState)
        ensures
            r.wf(),
            r.bytes() == Seq::<u8>::empty(),
    {
        DigestState { count: 0, sum: 0, mix: 0, bytes: Ghost(Seq::empty()) }
    }

    /// Digest one more chunk of the stream.
    pub fn update(&mut self, chunk: &[u8])
        requires
            old(self).wf(),
        ensures
            final(self).wf(),
            final(self).bytes() == old(self).bytes() + chunk@,
    {
        let ghost orig = self.bytes@;
        let mut i: usize = 0;
        while i < chunk.len()
            invariant
                0 <= i <= chunk.len(),
                self.wf(),
                self.bytes@ == orig + chunk@.subrange(0, i as int),
            decreases chunk.len() - i,
        {
            let b = chunk[i];
            proof {
                lemma_push_drop_last(self.bytes@, b);
            }
            self.count = self.count.wrapping_add(1);
            self.sum = self.sum.wrapping_add(b as u64);
            self.mix = self.mix.wrapping_add(self.sum);
            proof {
                self.bytes@ = self.bytes@.push(b);
                assert(orig + chunk@.subrange(0, i as int + 1) =~= self.bytes@);
            }
            i = i + 1;
        }
        proof {
            assert(orig + chunk@.subrange(0, chunk@.len() as int) =~= orig + chunk@);
        }
    }

    /// The finished fingerprint of everything digested so far.
    pub fn finish(&self) -> (r: Digest)
        requires
            self.wf(),
        ensures
            r == digest_of(self.bytes()),
    {
        Digest { count: self.count, sum: self.sum, mix: self.mix }
    }
}

} // verus!
