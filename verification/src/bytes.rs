//! Small verified helpers on byte slices and vectors.

use vstd::prelude::*;
use vstd::assert_seqs_equal;

verus! {

/// Copy a slice into an owned vector.
pub fn slice_to_vec(src: &[u8]) -> (r: Vec<u8>)
    ensures
        r@ == src@,
{
    let mut r: Vec<u8> = Vec::new();
    let mut i: usize = 0;
    while i < src.len()
        invariant
            i <= src.len(),
            r@ == src@.subrange(0, i as int),
        decreases src.len() - i,
    {
        r.push(src[i]);
        proof {
            assert_seqs_equal!(r@, src@.subrange(0, i + 1 as int));
        }
        i = i + 1;
    }
    proof {
        assert_seqs_equal!(r@, src@);
    }
    r
}

/// Append a slice to an owned vector.
pub fn push_all(dst: &mut Vec<u8>, src: &[u8])
    ensures
        final(dst)@ == old(dst)@ + src@,
{
    let mut i: usize = 0;
    while i < src.len()
        invariant
            i <= src.len(),
            dst@ == old(dst)@ + src@.subrange(0, i as int),
        decreases src.len() - i,
    {
        dst.push(src[i]);
        proof {
            assert_seqs_equal!(dst@, old(dst)@ + src@.subrange(0, i + 1 as int));
        }
        i = i + 1;
    }
    proof {
        assert_seqs_equal!(dst@, old(dst)@ + src@);
    }
}

/// Whether two byte slices hold the same bytes.
pub fn bytes_eq(a: &[u8], b: &[u8]) -> (r: bool)
    ensures
        r == (a@ == b@),
{
    if a.len() != b.len() {
        return false;
    }
    let mut i: usize = 0;
    while i < a.len()
        invariant
            i <= a.len(),
            a@.len() == b@.len(),
            forall|j: int| 0 <= j < i ==> a@[j] == b@[j],
        decreases a.len() - i,
    {
        if a[i] != b[i] {
            return false;
        }
        i = i + 1;
    }
    proof {
        assert_seqs_equal!(a@, b@);
    }
    true
}

} // verus!
