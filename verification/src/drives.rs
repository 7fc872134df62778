//! Decision rule of the removable-drive listing.
//!
//! The front-end walks the platform's device inventory and reads, for each
//! disk, the marker that says whether the medium is removable. The rule for
//! accepting a disk as a flash target lives here: the marker must read `1`
//! once surrounding ASCII whitespace is stripped, and the device node must
//! exist. Collecting the candidates and reading the markers is I/O and stays
//! outside.

use vstd::prelude::*;

verus! {

pub open spec fn is_ascii_space(b: u8) -> bool {
    b == 32 || b == 9 || b == 10 || b == 13
}

/// The sequence with its leading ASCII whitespace removed.
pub open spec fn trim_front(s: Seq<u8>) -> Seq<u8>
    decreases s.len(),
{
    if s.len() == 0 {
        s
    } else if is_ascii_space(s[0]) {
        trim_front(s.drop_first())
    } else {
        s
    }
}

/// The sequence with its trailing ASCII whitespace removed.
pub open spec fn trim_back(s: Seq<u8>) -> Seq<u8>
    decreases s.len(),
{
    if s.len() == 0 {
        s
    } else if is_ascii_space(s.last()) {
        trim_back(s.drop_last())
    } else {
        s
    }
}

/// The sequence with whitespace stripped from both ends.
pub open spec fn trimmed(s: Seq<u8>) -> Seq<u8> {
    trim_back(trim_front(s))
}

/// A marker file flags a removable medium when it holds `1` up to
/// surrounding whitespace.
pub open spec fn marks_removable(s: Seq<u8>) -> bool {
    trimmed(s) == seq![49u8]
}

/// Dropping any number of leading whitespace bytes does not change what
/// trimming from the front produces.
proof fn lemma_trim_front_skip(s: Seq<u8>, i: int)
    requires
        0 <= i <= s.len(),
        forall|k: int| 0 <= k < i ==> is_ascii_space(s[k]),
    ensures
        trim_front(s) == trim_front(s.skip(i)),
    decreases i,
{
    if i == 0 {
        assert(s.skip(0) =~= s);
    } else {
        lemma_trim_front_skip(s, i - 1);
        assert(s.skip(i - 1).drop_first() =~= s.skip(i));
        assert(trim_front(s.skip(i - 1)) == trim_front(s.skip(i)));
    }
}

/// Dropping any number of trailing whitespace bytes does not change what
/// trimming from the back produces.
proof fn lemma_trim_back_take(s: Seq<u8>, j: int)
    requires
        0 <= j <= s.len(),
        forall|k: int| j <= k < s.len() ==> is_ascii_space(s[k]),
    ensures
        trim_back(s) == trim_back(s.take(j)),
    decreases s.len() - j,
{
    if j == s.len() {
        assert(s.take(j) =~= s);
    } else {
        assert(s.drop_last() =~= s.take(s.len() - 1));
        lemma_trim_back_take(s.take(s.len() - 1), j);
        assert(s.take(s.len() - 1).take(j) =~= s.take(j));
    }
}

/// Whether the marker bytes flag a removable medium: scan past the leading
/// and trailing whitespace and check that exactly a `1` remains.
pub fn is_removable_marker(s: &[u8]) -> (r: bool)
    ensures
        r == marks_removable(s@),
{
    let len = s.len();
    let mut i: usize = 0;
    while i < len && (s[i] == 32 || s[i] == 9 || s[i] == 10 || s[i] == 13)
        invariant
            0 <= i <= len,
            len == s@.len(),
            forall|k: int| 0 <= k < i ==> is_ascii_space(s@[k]),
        decreases len - i,
    {
        i = i + 1;
    }
    proof {
        lemma_trim_front_skip(s@, i as int);
    }
    if i == len {
        proof {
            assert(s@.skip(len as int) =~= Seq::<u8>::empty());
        }
        return false;
    }
    let mut j: usize = len - 1;
    while j > i && (s[j] == 32 || s[j] == 9 || s[j] == 10 || s[j] == 13)
        invariant
            i <= j < len,
            len == s@.len(),
            forall|k: int| j < k < len ==> is_ascii_space(s@[k]),
        decreases j,
    {
        j = j - 1;
    }
    let r = j == i && s[i] == 49;
    proof {
        let t = s@.skip(i as int);
        let jt = j - i;
        assert(forall|k: int| 0 <= k < t.len() ==> t[k] == s@[i + k]);
        if is_ascii_space(s@[j as int]) {
            // The back scan stopped at `i`, which the front scan proved to
            // be non-whitespace; so this can only happen when j == i.
            assert(j == i);
            assert(!is_ascii_space(s@[i as int]));
            assert(false);
        }
        lemma_trim_back_take(t, jt + 1);
        assert(t.take(jt + 1) =~= s@.subrange(i as int, j + 1));
        assert(trimmed(s@) == s@.subrange(i as int, j + 1));
        if r {
            assert(s@.subrange(i as int, j + 1) =~= seq![49u8]);
        } else {
            if j == i {
                assert(s@.subrange(i as int, j + 1)[0] == s@[i as int]);
                assert(seq![49u8][0] == 49u8);
            }
        }
    }
    r
}

/// The listing keeps a disk exactly when its device node exists and its
/// marker flags a removable medium.
pub fn drive_accepted(marker: Option<&Vec<u8>>, node_exists: bool) -> (r: bool)
    ensures
        r == (match marker {
            Some(m) => node_exists && marks_removable(m@),
            None => false,
        }),
{
    match marker {
        Some(m) => node_exists && is_removable_marker(m.as_slice()),
        None => false,
    }
}

} // verus!
