//! Rounding a size up to a power of two.
use vstd::prelude::*;

verus! {

/// `p` is one of 1, 2, 4, 8, ...
pub open spec fn is_pow2(p: nat) -> bool
    decreases p,
{
    if p == 1 {
        true
    } else if p == 0 || p % 2 == 1 {
        false
    } else {
        is_pow2(p / 2)
    }
}

/// `p` is the smallest power of two that is at least `n` (and at least 1).
pub open spec fn is_next_pow2(n: nat, p: nat) -> bool {
    &&& is_pow2(p)
    &&& n <= p
    &&& p == 1 || p / 2 < n
}

/// Rounds `n` up to the nearest power of two; 0 and 1 both give 1.
pub fn nearest_power_of_two(n: usize) -> (p: usize)
    requires
        n <= usize::MAX / 2 + 1,
    ensures
        is_next_pow2(n as nat, p as nat),
{
    let mut p: usize = 1;
    while p < n
        invariant
            n <= usize::MAX / 2 + 1,
            1 <= p,
            is_pow2(p as nat),
            p == 1 || p / 2 < n,
        decreases usize::MAX - p,
    {
        assert(is_pow2((p * 2) as nat)) by {
            assert((p * 2) as nat / 2 == p as nat);
            assert((p * 2) as nat % 2 == 0);
        }
        p = p * 2;
    }
    p
}

} // verus!
