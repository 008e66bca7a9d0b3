//! Four-byte alignment arithmetic of the netlink wire format.

use vstd::prelude::*;

verus! {

/// The smallest multiple of four that is at least `n`.
pub open spec fn align4(n: int) -> int {
    ((n + 3) / 4) * 4
}

/// Aligning never shrinks a length, ends on a multiple of four, and adds
/// fewer than four.
pub proof fn lemma_align4(n: int)
    ensures
        align4(n) >= n,
        align4(n) % 4 == 0,
        align4(n) < n + 4,
{
}

/// Rounds `val` up to the next multiple of four.
pub fn aligned_size(val: usize) -> (r: usize)
    requires
        val + 3 <= usize::MAX,
    ensures
        r == align4(val as int),
        r >= val,
        r % 4 == 0,
        r < val + 4,
{
    let sum: usize = val + 3;
    assert(sum & !3usize == ((sum / 4) * 4) as usize) by (bit_vector);
    sum & !3usize
}

} // verus!
