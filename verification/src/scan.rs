//! What a liveness snapshot decides: the slot that is handed out next, the slots that are
//! occupied, and the packed image of their records.
//!
//! A snapshot is a sequence of flags, one for each slot, true where the slot's handle exists.

use vstd::prelude::*;
use crate::capacity::allocatable;
use crate::record::{default_record, zero_record, RawInstance};

verus! {

/// The lowest index at or after `start` whose flag is false, or the end of the snapshot if
/// there is none.
pub open spec fn first_free_from(live: Seq<bool>, start: int) -> int
    decreases live.len() - start,
{
    if 0 <= start < live.len() && live[start] {
        first_free_from(live, start + 1)
    } else {
        start
    }
}

/// The slot that an allocation takes: the lowest free one, or a new one past the end.
pub open spec fn first_free(live: Seq<bool>) -> int {
    first_free_from(live, 0)
}

/// The indices of the live slots, in ascending order.
pub open spec fn live_indices(live: Seq<bool>) -> Seq<int>
    decreases live.len(),
{
    if live.len() == 0 {
        Seq::empty()
    } else if live.last() {
        live_indices(live.drop_last()).push(live.len() - 1)
    } else {
        live_indices(live.drop_last())
    }
}

/// The number of live slots.
pub open spec fn live_count(live: Seq<bool>) -> nat {
    live_indices(live).len()
}

/// The image of `capacity` records that a flush uploads: the records of the live slots in
/// ascending slot order, then zero records.
pub open spec fn packed(mirror: Seq<RawInstance>, live: Seq<bool>, capacity: nat) -> Seq<
    RawInstance,
> {
    Seq::new(
        capacity,
        |k: int|
            if k < live_indices(live).len() {
                mirror[live_indices(live)[k]]
            } else {
                zero_record()
            },
    )
}

/// From `start` on, the first free index lies between `start` and the end, every index from
/// `start` up to it is live, and it is not live itself unless it is the end.
pub proof fn lemma_first_free_from(live: Seq<bool>, start: int)
    requires
        0 <= start <= live.len(),
    ensures
        start <= first_free_from(live, start) <= live.len(),
        forall|j: int| start <= j < first_free_from(live, start) ==> live[j],
        first_free_from(live, start) < live.len() ==> !live[first_free_from(live, start)],
    decreases live.len() - start,
{
    if start < live.len() && live[start] {
        lemma_first_free_from(live, start + 1);
    }
}

/// Every live index is below the snapshot's length, and there are no more of them than slots.
pub proof fn lemma_live_indices_bounds(live: Seq<bool>)
    ensures
        live_indices(live).len() <= live.len(),
        forall|k: int|
            0 <= k < live_indices(live).len() ==> 0 <= #[trigger] live_indices(live)[k]
                < live.len(),
    decreases live.len(),
{
    if live.len() > 0 {
        lemma_live_indices_bounds(live.drop_last());
    }
}

/// The live indices are strictly ascending.
pub proof fn lemma_live_indices_ascending(live: Seq<bool>)
    ensures
        forall|a: int, b: int|
            0 <= a < b < live_indices(live).len() ==> live_indices(live)[a] < live_indices(
                live,
            )[b],
    decreases live.len(),
{
    if live.len() > 0 {
        lemma_live_indices_ascending(live.drop_last());
        lemma_live_indices_bounds(live.drop_last());
    }
}

/// Every live index names a live slot.
pub proof fn lemma_live_indices_sound(live: Seq<bool>)
    ensures
        forall|k: int|
            0 <= k < live_indices(live).len() ==> 0 <= #[trigger] live_indices(live)[k]
                < live.len() && live[live_indices(live)[k]],
    decreases live.len(),
{
    if live.len() > 0 {
        let shorter = live.drop_last();
        lemma_live_indices_sound(shorter);
        assert forall|k: int| 0 <= k < live_indices(live).len() implies 0
            <= #[trigger] live_indices(live)[k] < live.len() && live[live_indices(live)[k]] by {
            if k < live_indices(shorter).len() {
                assert(live_indices(live)[k] == live_indices(shorter)[k]);
                assert(shorter[live_indices(shorter)[k]] == live[live_indices(shorter)[k]]);
            }
        }
    }
}

/// Every live slot is among the live indices.
pub proof fn lemma_live_indices_complete(live: Seq<bool>, slot: int)
    requires
        0 <= slot < live.len(),
        live[slot],
    ensures
        live_indices(live).contains(slot),
    decreases live.len(),
{
    let shorter = live.drop_last();
    if slot == live.len() - 1 {
        assert(live_indices(live)[live_indices(shorter).len() as int] == slot);
    } else {
        lemma_live_indices_complete(shorter, slot);
        let k = choose|k: int|
            0 <= k < live_indices(shorter).len() && live_indices(shorter)[k] == slot;
        assert(live_indices(live)[k] == slot);
    }
}

/// Where every slot is live, the live indices are all the indices.
pub proof fn lemma_live_indices_all(live: Seq<bool>)
    requires
        forall|i: int| 0 <= i < live.len() ==> live[i],
    ensures
        live_indices(live) == Seq::new(live.len(), |i: int| i),
    decreases live.len(),
{
    if live.len() > 0 {
        lemma_live_indices_all(live.drop_last());
        assert(live_indices(live) =~= Seq::new(live.len(), |i: int| i));
    } else {
        assert(live_indices(live) =~= Seq::new(live.len(), |i: int| i));
    }
}

/// The slot an allocation takes, for the snapshot `live`.
pub fn get_first_free_slot_idx(live: &Vec<bool>) -> (idx: usize)
    ensures
        idx == first_free(live@),
{
    let mut i: usize = 0;
    while i < live.len() && live[i]
        invariant
            0 <= i <= live.len(),
            first_free(live@) == first_free_from(live@, i as int),
        decreases live.len() - i,
    {
        i = i + 1;
    }
    i
}

/// The occupied slots for the snapshot `live`, in ascending order.
pub fn get_occupied_slots(live: &Vec<bool>) -> (occupied: Vec<usize>)
    ensures
        occupied@.len() == live_count(live@),
        forall|k: int| 0 <= k < occupied@.len() ==> occupied@[k] == live_indices(live@)[k],
{
    let mut occupied: Vec<usize> = Vec::new();
    let mut i: usize = 0;
    while i < live.len()
        invariant
            0 <= i <= live.len(),
            occupied@.len() == live_indices(live@.take(i as int)).len(),
            forall|k: int|
                0 <= k < occupied@.len() ==> occupied@[k] == live_indices(
                    live@.take(i as int),
                )[k],
        decreases live.len() - i,
    {
        proof {
            assert(live@.take(i + 1).drop_last() == live@.take(i as int));
        }
        if live[i] {
            occupied.push(i);
        }
        i = i + 1;
    }
    proof {
        assert(live@.take(i as int) == live@);
    }
    occupied
}

/// Gathers the records of the slots `occupied`, in the order given, into an image of `capacity`
/// records, and fills what is left of it with zero records.
pub(crate) fn gather(mirror: &Vec<RawInstance>, occupied: &Vec<usize>, capacity: usize) -> (image:
    Vec<RawInstance>)
    requires
        allocatable(capacity as nat),
        forall|k: int| 0 <= k < occupied@.len() ==> occupied@[k] < mirror@.len(),
    ensures
        image@.len() == capacity,
        forall|k: int|
            0 <= k < capacity ==> image@[k] == (if k < occupied@.len() {
                mirror@[occupied@[k] as int]
            } else {
                zero_record()
            }),
{
    let mut image: Vec<RawInstance> = Vec::with_capacity(capacity);
    let mut k: usize = 0;
    while k < capacity
        invariant
            0 <= k <= capacity,
            forall|j: int| 0 <= j < occupied@.len() ==> occupied@[j] < mirror@.len(),
            image@.len() == k,
            forall|j: int|
                0 <= j < k ==> image@[j] == (if j < occupied@.len() {
                    mirror@[occupied@[j] as int]
                } else {
                    zero_record()
                }),
        decreases capacity - k,
    {
        if k < occupied.len() {
            image.push(mirror[occupied[k]]);
        } else {
            image.push(default_record());
        }
        k = k + 1;
    }
    image
}

/// The image a flush uploads for the records `mirror`, the snapshot `live` and a buffer of
/// `capacity` records. The image has to fit in one allocation.
pub fn pack(mirror: &Vec<RawInstance>, live: &Vec<bool>, capacity: usize) -> (image: Vec<
    RawInstance,
>)
    requires
        live@.len() == mirror@.len(),
        allocatable(capacity as nat),
    ensures
        image@ == packed(mirror@, live@, capacity as nat),
{
    let occupied = get_occupied_slots(live);
    proof {
        lemma_live_indices_bounds(live@);
    }
    let image = gather(mirror, &occupied, capacity);
    proof {
        assert(image@ =~= packed(mirror@, live@, capacity as nat));
    }
    image
}

} // verus!
