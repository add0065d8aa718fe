//! The growth policy: how a buffer chooses its next capacity, and when a
//! capacity is representable at all.

use vstd::layout::size_of;
use vstd::prelude::*;

verus! {

/// Smallest capacity the amortized policy hands out when it grows a buffer.
/// A fixed floor avoids a run of tiny reallocations when growing from empty;
/// its exact value is a tuning choice, not a correctness requirement.
pub const MIN_NON_ZERO_CAP: usize = 8;

/// Largest allocation, in bytes, that the allocation layer accepts for a
/// single contiguous block.
pub open spec fn max_alloc_bytes() -> nat {
    isize::MAX as nat
}

/// A capacity of `cap` slots of `T` is representable as one allocation:
/// zero slots need no allocation at all; a nonzero number of slots needs a
/// nonzero element size (zero-sized element types are unsupported) and a
/// byte size within the allocation limit.
pub open spec fn cap_fits<T>(cap: nat) -> bool {
    cap > 0 ==> size_of::<T>() > 0 && cap * size_of::<T>() <= max_alloc_bytes()
}

/// The larger of two capacities.
pub open spec fn nat_max(a: nat, b: nat) -> nat {
    if a >= b {
        a
    } else {
        b
    }
}

/// Target capacity of the amortized policy for a buffer of length `len` and
/// capacity `cap` that must gain room for `additional` more elements: at
/// least double the old capacity, at least what is required, and never
/// below the fixed floor. Doubling bounds the total reallocation work of N
/// single-element appends to O(N).
pub open spec fn amortized_target(len: nat, cap: nat, additional: nat) -> nat {
    nat_max(MIN_NON_ZERO_CAP as nat, nat_max(2 * cap, len + additional))
}

/// Target capacity of the exact policy: precisely what is required, with no
/// over-allocation.
pub open spec fn exact_target(len: nat, additional: nat) -> nat {
    len + additional
}

/// A representable capacity of a nonzero number of slots is itself bounded
/// by the allocation limit.
pub proof fn lemma_cap_fits_bounds_cap<T>(cap: nat)
    requires
        cap_fits::<T>(cap),
        cap > 0,
    ensures
        cap <= max_alloc_bytes(),
{
    assert(cap <= cap * size_of::<T>()) by (nonlinear_arith)
        requires
            size_of::<T>() >= 1,
    ;
}

/// Anything below a representable capacity is representable: shrinking never
/// runs into the allocation limit.
pub proof fn lemma_cap_fits_monotone<T>(small: nat, large: nat)
    requires
        cap_fits::<T>(large),
        small <= large,
    ensures
        cap_fits::<T>(small),
{
    if small > 0 {
        assert(small * size_of::<T>() <= large * size_of::<T>()) by (nonlinear_arith)
            requires
                small <= large,
        ;
    }
}

/// The amortized target always covers what was asked for, at least doubles
/// the old capacity, and never falls below the floor.
pub proof fn lemma_amortized_target_bounds(len: nat, cap: nat, additional: nat)
    ensures
        amortized_target(len, cap, additional) >= len + additional,
        amortized_target(len, cap, additional) >= 2 * cap,
        amortized_target(len, cap, additional) >= MIN_NON_ZERO_CAP,
{
}

} // verus!
