//! Arithmetic on the `u64` counters that the projections keep.

use vstd::prelude::*;

verus! {

/// `n + 1`, for a counter that has room for it.
pub open spec fn bump(n: u64) -> u64 {
    (n + 1) as u64
}

/// `n + k`, for a counter that has room for it.
pub open spec fn raise(n: u64, k: nat) -> u64 {
    (n + k) as u64
}

} // verus!
