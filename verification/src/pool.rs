//! The instance pool: a mirror of per-slot records, the handles that keep slots alive, and the
//! flush that compacts the live records into the image of the vertex buffer.

use vstd::prelude::*;
use std::rc::Rc;
use crate::capacity::{grow_capacity, grown};
use crate::record::{default_record, raw_instance, record_of, zero_record, RawInstance};
use crate::scan::{
    first_free, gather, get_first_free_slot_idx, get_occupied_slots, lemma_first_free_from,
    lemma_live_indices_bounds, live_count, packed,
};
use crate::slot::{downgrade, upgrade, WeakSlot};

verus! {

/// Why an operation of the pool failed.
#[derive(Clone, Copy, Debug, PartialEq, Eq)]
pub enum PoolError {
    /// The index names no slot of the pool.
    IndexOutOfRange,
    /// The vertex buffer cannot be made to cover the mirror: its capacity is zero, which
    /// doubling does not move, or the image would not fit in one allocation.
    CapacityExhausted,
}

/// What a flush asks its caller to do with the vertex buffer.
#[derive(Debug, PartialEq, Eq)]
pub struct Upload {
    /// The buffer must be replaced by a new one of `capacity` records before the write.
    pub reallocate: bool,
    /// The capacity of the buffer, in records.
    pub capacity: usize,
    /// The image to write at offset zero: `capacity` records.
    pub records: Vec<RawInstance>,
}

/// An [`Upload`] as a mathematical value.
pub struct UploadView {
    pub reallocate: bool,
    pub capacity: nat,
    pub records: Seq<RawInstance>,
}

impl View for Upload {
    type V = UploadView;

    open spec fn view(&self) -> UploadView {
        UploadView {
            reallocate: self.reallocate,
            capacity: self.capacity as nat,
            records: self.records@,
        }
    }
}

/// The result of a flush as a mathematical value.
pub open spec fn outcome_view(outcome: Result<Option<Upload>, PoolError>) -> Result<
    Option<UploadView>,
    PoolError,
> {
    match outcome {
        Ok(Some(upload)) => Ok(Some(upload@)),
        Ok(None) => Ok(None),
        Err(e) => Err(e),
    }
}

/// The state of a pool as a mathematical value.
pub struct PoolView {
    /// The record of each slot ever allocated, by slot index.
    pub mirror: Seq<RawInstance>,
    /// The capacity of the vertex buffer, in records.
    pub capacity: nat,
    /// Something changed since the last flush.
    pub dirty: bool,
    /// The number of live slots that the last flush found.
    pub live_count: nat,
}

impl PoolView {
    /// A pool without slots over a buffer of `capacity` records.
    pub open spec fn fresh(capacity: nat) -> PoolView {
        PoolView { mirror: Seq::empty(), capacity, dirty: false, live_count: 0 }
    }

    /// The pool after an allocation that found the liveness `live`: a zero record is appended
    /// where no slot was free, and the pool is dirty.
    pub open spec fn claimed(self, live: Seq<bool>) -> PoolView {
        PoolView {
            mirror: if first_free(live) >= self.mirror.len() {
                self.mirror.push(zero_record())
            } else {
                self.mirror
            },
            dirty: true,
            ..self
        }
    }

    /// The pool after `record` was written to the slot `index`.
    pub open spec fn with_record(self, index: int, record: RawInstance) -> PoolView {
        PoolView { mirror: self.mirror.update(index, record), dirty: true, ..self }
    }

    /// What a flush that finds the liveness `live` returns.
    pub open spec fn flush_outcome(self, live: Seq<bool>) -> Result<Option<UploadView>, PoolError> {
        if !self.dirty {
            Ok(None)
        } else {
            match grown(self.capacity, self.mirror.len()) {
                None => Err(PoolError::CapacityExhausted),
                Some(target) => Ok(
                    Some(
                        UploadView {
                            reallocate: self.mirror.len() > self.capacity,
                            capacity: target,
                            records: packed(self.mirror, live, target),
                        },
                    ),
                ),
            }
        }
    }

    /// The pool after a flush that found the liveness `live`.
    pub open spec fn flushed(self, live: Seq<bool>) -> PoolView {
        if !self.dirty {
            self
        } else {
            match grown(self.capacity, self.mirror.len()) {
                None => self,
                Some(target) => PoolView {
                    capacity: target,
                    dirty: false,
                    live_count: live_count(live),
                    ..self
                },
            }
        }
    }
}

/// The CPU side of one instanced vertex buffer.
pub struct InstanceBuffer {
    cpu_copy: Vec<RawInstance>,
    gpu_buffer_size: usize,
    handles: Vec<WeakSlot>,
    occupied_slots: u64,
    changed: bool,
}

impl View for InstanceBuffer {
    type V = PoolView;

    closed spec fn view(&self) -> PoolView {
        PoolView {
            mirror: self.cpu_copy@,
            capacity: self.gpu_buffer_size as nat,
            dirty: self.changed,
            live_count: self.occupied_slots as nat,
        }
    }
}

impl InstanceBuffer {
    /// Each slot has one record and one weak reference.
    pub closed spec fn wf(&self) -> bool {
        self.cpu_copy@.len() == self.handles@.len()
    }

    /// A pool without slots for a vertex buffer of `buffer_size_in_elems` records.
    pub fn new(buffer_size_in_elems: usize) -> (pool: Self)
        ensures
            pool.wf(),
            pool@ == PoolView::fresh(buffer_size_in_elems as nat),
    {
        InstanceBuffer {
            cpu_copy: Vec::new(),
            handles: Vec::new(),
            gpu_buffer_size: buffer_size_in_elems,
            occupied_slots: 0,
            changed: false,
        }
    }

    /// The number of slots ever allocated.
    pub fn len(&self) -> (n: usize)
        ensures
            n == self@.mirror.len(),
    {
        self.cpu_copy.len()
    }

    /// The capacity of the vertex buffer, in records.
    pub fn capacity(&self) -> (n: usize)
        ensures
            n == self@.capacity,
    {
        self.gpu_buffer_size
    }

    /// The number of live slots that the last flush found: the instances to draw.
    pub fn occupied_slots(&self) -> (n: u64)
        ensures
            n == self@.live_count,
    {
        self.occupied_slots
    }

    /// Whether anything changed since the last flush.
    pub fn is_changed(&self) -> (dirty: bool)
        ensures
            dirty == self@.dirty,
    {
        self.changed
    }

    /// The record of the slot `index`, where there is such a slot.
    pub fn record(&self, index: usize) -> (record: Option<RawInstance>)
        ensures
            record == (if index < self@.mirror.len() {
                Some(self@.mirror[index as int])
            } else {
                None
            }),
    {
        if index < self.cpu_copy.len() {
            Some(self.cpu_copy[index])
        } else {
            None
        }
    }

    /// Asks each slot's weak reference whether its handle exists. The flags depend on what the
    /// handles' owners have done, so only their number is known.
    pub fn liveness(&self) -> (live: Vec<bool>)
        requires
            self.wf(),
        ensures
            live@.len() == self@.mirror.len(),
    {
        let mut live: Vec<bool> = Vec::new();
        let mut i: usize = 0;
        while i < self.handles.len()
            invariant
                0 <= i <= self.handles@.len(),
                live@.len() == i,
            decreases self.handles@.len() - i,
        {
            let handle = upgrade(&self.handles[i]);
            live.push(handle.is_some());
            i = i + 1;
        }
        live
    }

    /// Allocates a slot for the liveness `live`: the lowest free slot, or a new one with a zero
    /// record where none is free. The handle returned owns the slot.
    pub fn claim_slot(&mut self, live: &Vec<bool>) -> (handle: Rc<usize>)
        requires
            old(self).wf(),
            live@.len() == old(self)@.mirror.len(),
        ensures
            final(self).wf(),
            final(self)@ == old(self)@.claimed(live@),
            *handle == first_free(live@),
            *handle < final(self)@.mirror.len(),
    {
        proof {
            lemma_first_free_from(live@, 0);
        }
        let lowest_free_index = get_first_free_slot_idx(live);
        let handle = Rc::new(lowest_free_index);
        let observer = downgrade(&handle);
        if lowest_free_index >= self.cpu_copy.len() {
            self.cpu_copy.push(default_record());
            self.handles.push(observer);
        } else {
            self.handles[lowest_free_index] = observer;
        }
        self.changed = true;
        handle
    }

    /// Allocates a slot: the lowest one whose handle is gone, or a new one. Which slots are
    /// free is found by asking the weak references, so the result is that of [`Self::claim_slot`]
    /// for some liveness of the pool's slots.
    pub fn get_instance_buffer_slot(&mut self) -> (handle: Rc<usize>)
        requires
            old(self).wf(),
        ensures
            final(self).wf(),
            exists|live: Seq<bool>|
                live.len() == old(self)@.mirror.len() && final(self)@ == #[trigger] old(
                    self,
                )@.claimed(live) && *handle == first_free(live),
            *handle < final(self)@.mirror.len(),
    {
        let live = self.liveness();
        self.claim_slot(&live)
    }

    /// Writes `data` to the slot `index`. Fails, and changes nothing, where the pool has no
    /// such slot.
    pub fn set_data(&mut self, index: usize, data: RawInstance) -> (result: Result<(), PoolError>)
        requires
            old(self).wf(),
        ensures
            final(self).wf(),
            index < old(self)@.mirror.len() ==> result == Ok::<(), PoolError>(()) && final(self)@
                == old(self)@.with_record(index as int, data),
            index >= old(self)@.mirror.len() ==> result == Err::<(), PoolError>(
                PoolError::IndexOutOfRange,
            ) && final(self)@ == old(self)@,
    {
        if index >= self.cpu_copy.len() {
            return Err(PoolError::IndexOutOfRange);
        }
        self.changed = true;
        self.cpu_copy[index] = data;
        Ok(())
    }

    /// Writes the record of an instance to the slot that `buffer_index` owns. Holding the
    /// handle is what keeps the slot from being handed to another instance. Fails, and changes
    /// nothing, where the handle is not one of this pool's slots.
    pub fn set_instance(
        &mut self,
        buffer_index: &Rc<usize>,
        transform: [[u32; 4]; 4],
        color: [u32; 4],
    ) -> (result: Result<(), PoolError>)
        requires
            old(self).wf(),
        ensures
            final(self).wf(),
            **buffer_index < old(self)@.mirror.len() ==> result == Ok::<(), PoolError>(())
                && final(self)@ == old(self)@.with_record(
                **buffer_index as int,
                record_of(transform, color),
            ),
            **buffer_index >= old(self)@.mirror.len() ==> result == Err::<(), PoolError>(
                PoolError::IndexOutOfRange,
            ) && final(self)@ == old(self)@,
    {
        self.set_data(**buffer_index, raw_instance(transform, color))
    }

    /// Flushes for the liveness `live`. A pool that is not dirty is left alone. Otherwise the
    /// capacity is doubled until it covers the mirror, the records of the live slots are packed
    /// in ascending slot order into an image of that capacity, and the pool is clean. Where
    /// the capacity cannot be reached, the flush fails and changes nothing.
    pub fn flush_live(&mut self, live: &Vec<bool>) -> (outcome: Result<Option<Upload>, PoolError>)
        requires
            old(self).wf(),
            live@.len() == old(self)@.mirror.len(),
        ensures
            final(self).wf(),
            outcome_view(outcome) == old(self)@.flush_outcome(live@),
            final(self)@ == old(self)@.flushed(live@),
    {
        if !self.changed {
            return Ok(None);
        }
        let needed = self.cpu_copy.len();
        let target = match grow_capacity(self.gpu_buffer_size, needed) {
            Some(target) => target,
            None => {
                return Err(PoolError::CapacityExhausted);
            },
        };
        let reallocate = needed > self.gpu_buffer_size;
        let occupied = get_occupied_slots(live);
        proof {
            lemma_live_indices_bounds(live@);
        }
        let records = gather(&self.cpu_copy, &occupied, target);
        proof {
            assert(records@ =~= packed(self.cpu_copy@, live@, target as nat));
        }
        self.gpu_buffer_size = target;
        self.occupied_slots = occupied.len() as u64;
        self.changed = false;
        Ok(Some(Upload { reallocate, capacity: target, records }))
    }

    /// Flushes. Which slots are live is found by asking the weak references, so the result is
    /// that of [`Self::flush_live`] for some liveness of the pool's slots.
    pub fn flush(&mut self) -> (outcome: Result<Option<Upload>, PoolError>)
        requires
            old(self).wf(),
        ensures
            final(self).wf(),
            exists|live: Seq<bool>|
                live.len() == old(self)@.mirror.len() && final(self)@ == #[trigger] old(
                    self,
                )@.flushed(live) && outcome_view(outcome) == old(self)@.flush_outcome(live),
    {
        let live = self.liveness();
        self.flush_live(&live)
    }
}

} // verus!
