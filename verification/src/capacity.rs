//! The growth policy of the vertex buffer: its capacity only ever doubles.

use vstd::prelude::*;
use vstd::arithmetic::power2::{lemma2_to64, lemma_pow2_unfold, pow2};
use crate::record::RECORD_BYTES;

verus! {

/// The capacity reached from `capacity` by doubling until it covers `needed` records. A
/// capacity of zero stays zero: doubling does not move it.
pub open spec fn covering_capacity(capacity: nat, needed: nat) -> nat
    decreases (if needed > capacity { needed - capacity } else { 0 }),
{
    if capacity == 0 || capacity >= needed {
        capacity
    } else {
        covering_capacity(2 * capacity, needed)
    }
}

/// The number of doublings that take `capacity` to [`covering_capacity`].
pub open spec fn doublings(capacity: nat, needed: nat) -> nat
    decreases (if needed > capacity { needed - capacity } else { 0 }),
{
    if capacity == 0 || capacity >= needed {
        0
    } else {
        1 + doublings(2 * capacity, needed)
    }
}

/// An image of `capacity` records fits in one allocation of this machine.
pub open spec fn allocatable(capacity: nat) -> bool {
    capacity * RECORD_BYTES <= isize::MAX
}

/// The capacity a flush works with, for a buffer of `capacity` records and a mirror of `needed`
/// records; `None` where doubling cannot cover the mirror or the image cannot be allocated.
pub open spec fn grown(capacity: nat, needed: nat) -> Option<nat> {
    let target = covering_capacity(capacity, needed);
    if target >= needed && allocatable(target) {
        Some(target)
    } else {
        None
    }
}

/// Doubling never shrinks a capacity, and a capacity other than zero ends up covering what is
/// needed.
pub proof fn lemma_covering_capacity_bounds(capacity: nat, needed: nat)
    ensures
        covering_capacity(capacity, needed) >= capacity,
        capacity > 0 ==> covering_capacity(capacity, needed) >= needed,
        capacity == 0 ==> covering_capacity(capacity, needed) == 0,
        capacity >= needed ==> covering_capacity(capacity, needed) == capacity,
    decreases (if needed > capacity { needed - capacity } else { 0 }),
{
    if !(capacity == 0 || capacity >= needed) {
        lemma_covering_capacity_bounds(2 * capacity, needed);
    }
}

/// A capacity grows by doubling only: the capacity it reaches is the old one times a power of
/// two, and no smaller power of two would have covered what is needed.
pub proof fn lemma_covering_capacity_doubles(capacity: nat, needed: nat)
    ensures
        covering_capacity(capacity, needed) == capacity * pow2(doublings(capacity, needed)),
        forall|fewer: nat|
            fewer < doublings(capacity, needed) ==> capacity * #[trigger] pow2(fewer) < needed,
    decreases (if needed > capacity { needed - capacity } else { 0 }),
{
    lemma2_to64();
    if capacity == 0 || capacity >= needed {
        assert(capacity * pow2(0) == capacity);
    } else {
        lemma_covering_capacity_doubles(2 * capacity, needed);
        let rest = doublings(2 * capacity, needed);
        assert(doublings(capacity, needed) == rest + 1);
        lemma_pow2_unfold(rest + 1);
        assert(capacity * pow2(rest + 1) == (2 * capacity) * pow2(rest)) by (nonlinear_arith)
            requires
                pow2(rest + 1) == 2 * pow2(rest),
        ;
        assert forall|fewer: nat| fewer < doublings(capacity, needed) implies capacity
            * #[trigger] pow2(fewer) < needed by {
            if fewer == 0 {
                assert(capacity * pow2(0) == capacity);
            } else {
                let less = (fewer - 1) as nat;
                lemma_pow2_unfold(fewer);
                assert((2 * capacity) * pow2(less) < needed);
                assert(capacity * pow2(fewer) == (2 * capacity) * pow2(less))
                    by (nonlinear_arith)
                    requires
                        pow2(fewer) == 2 * pow2(less),
                ;
            }
        }
    }
}

/// The capacity to flush with; see [`grown`].
pub fn grow_capacity(capacity: usize, needed: usize) -> (target: Option<usize>)
    ensures
        match target {
            Some(t) => grown(capacity as nat, needed as nat) == Some(t as nat),
            None => grown(capacity as nat, needed as nat) is None,
        },
{
    let limit: usize = (isize::MAX as usize) / RECORD_BYTES;
    let mut current: usize = capacity;
    while current < needed
        invariant
            covering_capacity(current as nat, needed as nat) == covering_capacity(
                capacity as nat,
                needed as nat,
            ),
            limit == (isize::MAX as int) / (RECORD_BYTES as int),
        decreases (if needed > current { needed - current } else { 0 }),
    {
        if current == 0 || current > limit {
            proof {
                lemma_covering_capacity_bounds(current as nat, needed as nat);
            }
            return None;
        }
        current = 2 * current;
    }
    if current > limit {
        None
    } else {
        Some(current)
    }
}

/// The size in bytes of a vertex buffer of `capacity` records, where it fits in 64 bits.
pub fn buffer_bytes(capacity: usize) -> (bytes: Option<u64>)
    ensures
        bytes == (if capacity * RECORD_BYTES <= u64::MAX {
            Some((capacity * RECORD_BYTES) as u64)
        } else {
            None
        }),
{
    (capacity as u64).checked_mul(RECORD_BYTES as u64)
}

} // verus!
