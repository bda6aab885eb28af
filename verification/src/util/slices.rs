//! Borrowing a part of a byte vector for writing.
use vstd::prelude::*;

verus! {

/// Borrows `v[start..end]` for writing (std's range `IndexMut` of `Vec`):
/// the slice holds those bytes, and what it holds when the borrow ends
/// replaces them in `v`.
#[verifier::external_body]
pub(crate) fn vec_range_mut(v: &mut Vec<u8>, start: usize, end: usize) -> (r: &mut [u8])
    requires
        start <= end <= old(v)@.len(),
    ensures
        r@ == old(v)@.subrange(start as int, end as int),
        final(r)@.len() == end - start,
        final(v)@ == old(v)@.subrange(0, start as int) + final(r)@ + old(v)@.subrange(end as int, old(v)@.len() as int),
{
    &mut v[start..end]
}

} // verus!
