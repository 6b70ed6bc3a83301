//! What holds of the pool whatever its users do, stated over its mathematical model.

use vstd::prelude::*;
use crate::capacity::{allocatable, covering_capacity, lemma_covering_capacity_bounds};
use crate::pool::{PoolError, PoolView, UploadView};
use crate::record::{zero_record, RawInstance};
use crate::scan::{
    first_free, lemma_first_free_from, lemma_live_indices_all, lemma_live_indices_bounds,
    live_count, live_indices, packed,
};

verus! {

/// An allocation takes the lowest free slot: every slot below it is live, and it is free
/// itself unless it lies past the end.
pub proof fn law_first_free_is_lowest(live: Seq<bool>)
    ensures
        0 <= first_free(live) <= live.len(),
        forall|j: int| 0 <= j < first_free(live) ==> live[j],
        first_free(live) < live.len() ==> !live[first_free(live)],
{
    lemma_first_free_from(live, 0);
}

/// A free slot whose lower neighbours are all live is the one that the next allocation
/// takes, and the mirror does not grow for it.
pub proof fn law_reuse_lowest_hole(pool: PoolView, live: Seq<bool>, hole: int)
    requires
        live.len() == pool.mirror.len(),
        0 <= hole < live.len(),
        !live[hole],
        forall|j: int| 0 <= j < hole ==> live[j],
    ensures
        first_free(live) == hole,
        pool.claimed(live).mirror == pool.mirror,
        pool.claimed(live).dirty,
{
    lemma_first_free_from(live, 0);
}

/// Where every slot is live, an allocation appends a slot with a zero record.
pub proof fn law_append_when_full(pool: PoolView, live: Seq<bool>)
    requires
        live.len() == pool.mirror.len(),
        forall|j: int| 0 <= j < live.len() ==> live[j],
    ensures
        first_free(live) == live.len(),
        pool.claimed(live).mirror == pool.mirror.push(zero_record()),
        pool.claimed(live).dirty,
{
    lemma_first_free_from(live, 0);
}

/// A handle names a slot of the pool it comes from, and an allocation changes no record: the
/// mirror keeps every record it had, and it never shrinks.
pub proof fn law_claimed_slot_in_range(pool: PoolView, live: Seq<bool>)
    requires
        live.len() == pool.mirror.len(),
    ensures
        0 <= first_free(live) < pool.claimed(live).mirror.len(),
        pool.mirror.len() <= pool.claimed(live).mirror.len() <= pool.mirror.len() + 1,
        forall|slot: int|
            0 <= slot < pool.mirror.len() ==> pool.claimed(live).mirror[slot] == pool.mirror[slot],
        pool.claimed(live).capacity == pool.capacity,
        pool.claimed(live).live_count == pool.live_count,
{
    lemma_first_free_from(live, 0);
}

/// A capacity that one doubling makes cover the mirror is doubled exactly once.
pub proof fn law_capacity_doubles_once(capacity: nat, needed: nat)
    requires
        0 < capacity < needed <= 2 * capacity,
    ensures
        covering_capacity(capacity, needed) == 2 * capacity,
{
    assert(covering_capacity(2 * capacity, needed) == 2 * capacity);
}

/// The capacity after growth is the least one that covers the mirror among those reached by
/// doubling: it covers, and unless it is the old capacity, half of it does not.
pub proof fn law_capacity_is_least_cover(capacity: nat, needed: nat)
    requires
        capacity > 0,
    ensures
        covering_capacity(capacity, needed) >= needed,
        covering_capacity(capacity, needed) >= capacity,
        covering_capacity(capacity, needed) > capacity ==> covering_capacity(capacity, needed)
            < 2 * needed,
    decreases (if needed > capacity { needed - capacity } else { 0 }),
{
    if capacity < needed {
        law_capacity_is_least_cover(2 * capacity, needed);
    }
}

/// A dirty pool whose slots are all live and outgrew the buffer by no more than its capacity
/// flushes into a buffer of twice the capacity, and counts every slot.
pub proof fn law_flush_grows_and_counts(pool: PoolView, live: Seq<bool>)
    requires
        pool.dirty,
        live.len() == pool.mirror.len(),
        forall|j: int| 0 <= j < live.len() ==> live[j],
        0 < pool.capacity < pool.mirror.len() <= 2 * pool.capacity,
        allocatable(2 * pool.capacity),
    ensures
        pool.flush_outcome(live) == Ok::<Option<UploadView>, PoolError>(
            Some(
                UploadView {
                    reallocate: true,
                    capacity: 2 * pool.capacity,
                    records: packed(pool.mirror, live, 2 * pool.capacity),
                },
            ),
        ),
        pool.flushed(live).capacity == 2 * pool.capacity,
        pool.flushed(live).live_count == pool.mirror.len(),
        !pool.flushed(live).dirty,
{
    law_capacity_doubles_once(pool.capacity, pool.mirror.len());
    lemma_live_indices_all(live);
}

/// The image of a flush holds, position by position, the records of the live slots in
/// ascending slot order, and zero records from there to the capacity.
pub proof fn law_packed_image(mirror: Seq<RawInstance>, live: Seq<bool>, capacity: nat, k: int)
    requires
        live.len() == mirror.len(),
        0 <= k < capacity,
    ensures
        packed(mirror, live, capacity).len() == capacity,
        k < live_count(live) ==> 0 <= live_indices(live)[k] < mirror.len() && packed(
            mirror,
            live,
            capacity,
        )[k] == mirror[live_indices(live)[k]],
        k >= live_count(live) ==> packed(mirror, live, capacity)[k] == zero_record(),
{
    lemma_live_indices_bounds(live);
}

/// An upload covers the mirror: its capacity is at least the number of slots, its image has
/// exactly that capacity, and the live slots fit in it.
pub proof fn law_upload_covers(pool: PoolView, live: Seq<bool>)
    requires
        live.len() == pool.mirror.len(),
    ensures
        match pool.flush_outcome(live) {
            Ok(Some(upload)) => {
                &&& upload.capacity >= pool.mirror.len()
                &&& upload.capacity >= pool.capacity
                &&& upload.records.len() == upload.capacity
                &&& live_count(live) <= upload.capacity
                &&& allocatable(upload.capacity)
                &&& upload.reallocate == (upload.capacity > pool.capacity)
                &&& pool.flushed(live).capacity == upload.capacity
            },
            Ok(None) => !pool.dirty,
            Err(e) => pool.dirty && e == PoolError::CapacityExhausted,
        },
{
    lemma_covering_capacity_bounds(pool.capacity, pool.mirror.len());
    lemma_live_indices_bounds(live);
}

/// A flush either succeeds and leaves the pool clean, or fails and leaves it as it was.
pub proof fn law_flush_all_or_nothing(pool: PoolView, live: Seq<bool>)
    ensures
        pool.flush_outcome(live) is Ok ==> !pool.flushed(live).dirty,
        pool.flush_outcome(live) is Err ==> pool.flushed(live) == pool,
        pool.flushed(live).mirror == pool.mirror,
{
}

/// A flush fails exactly where the pool is dirty and its capacity cannot be grown to cover the
/// mirror: it is zero while there are slots, or the image would not fit in one allocation.
pub proof fn law_flush_fails_iff(pool: PoolView, live: Seq<bool>)
    ensures
        pool.flush_outcome(live) is Err <==> pool.dirty && (!allocatable(
            covering_capacity(pool.capacity, pool.mirror.len()),
        ) || (pool.capacity == 0 && pool.mirror.len() > 0)),
{
    lemma_covering_capacity_bounds(pool.capacity, pool.mirror.len());
}

/// A second flush without a change in between does nothing: it asks for no upload and leaves
/// the pool, its capacity and its count of live slots as the first flush left them, whatever
/// has become of the handles meanwhile.
pub proof fn law_flush_idempotent(pool: PoolView, first: Seq<bool>, second: Seq<bool>)
    requires
        pool.flush_outcome(first) is Ok,
    ensures
        pool.flushed(first).flush_outcome(second) == Ok::<Option<UploadView>, PoolError>(None),
        pool.flushed(first).flushed(second) == pool.flushed(first),
{
}

/// A new pool is clean: its first flush does nothing.
pub proof fn law_fresh_pool_is_clean(capacity: nat, live: Seq<bool>)
    ensures
        !PoolView::fresh(capacity).dirty,
        PoolView::fresh(capacity).flush_outcome(live) == Ok::<Option<UploadView>, PoolError>(None),
        PoolView::fresh(capacity).flushed(live) == PoolView::fresh(capacity),
{
}

/// A write or an allocation makes the pool dirty, a dirty pool never flushes to nothing, and
/// it stays dirty until a flush succeeds.
pub proof fn law_dirty_until_flush(
    pool: PoolView,
    index: int,
    record: RawInstance,
    claim: Seq<bool>,
    live: Seq<bool>,
)
    ensures
        pool.with_record(index, record).dirty,
        pool.claimed(claim).dirty,
        pool.dirty ==> pool.flush_outcome(live) != Ok::<Option<UploadView>, PoolError>(None),
        pool.dirty ==> (pool.flushed(live).dirty <==> pool.flush_outcome(live) is Err),
{
}

/// A write changes the record of its slot and no other, and neither the capacity nor the
/// count of live slots.
pub proof fn law_write_touches_one_slot(pool: PoolView, index: int, record: RawInstance)
    requires
        0 <= index < pool.mirror.len(),
    ensures
        pool.with_record(index, record).mirror.len() == pool.mirror.len(),
        pool.with_record(index, record).mirror[index] == record,
        forall|other: int|
            0 <= other < pool.mirror.len() && other != index ==> pool.with_record(
                index,
                record,
            ).mirror[other] == pool.mirror[other],
        pool.with_record(index, record).capacity == pool.capacity,
        pool.with_record(index, record).live_count == pool.live_count,
{
}

} // verus!
