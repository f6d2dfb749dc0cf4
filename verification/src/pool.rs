use crate::can::RawFrame;
use vstd::prelude::*;

verus! {

/// Number of frame slots that the node's transmit pool has.
pub const POOL_CAPACITY: usize = 128;

/// The pool has no free slot left.
#[derive(Clone, Copy, Debug, PartialEq, Eq, Structural)]
pub struct PoolExhausted;

/// Exclusive ownership of one slot of a [`FramePool`]. A handle is made by
/// [`FramePool::allocate`] only and is used up by [`FramePool::release`].
#[derive(Debug)]
pub struct FrameHandle {
    slot: usize,
}

impl FrameHandle {
    /// The slot that the handle owns.
    pub closed spec fn slot(&self) -> usize {
        self.slot
    }

    /// Computes [`FrameHandle::slot`].
    pub fn index(&self) -> (slot: usize)
        ensures
            slot == self.slot(),
    {
        self.slot
    }

    /// The handle of a slot that the caller knows to be in use and to have
    /// no other handle.
    pub(crate) fn from_slot(slot: usize) -> (handle: FrameHandle)
        ensures
            handle.slot() == slot,
    {
        FrameHandle { slot }
    }
}

/// A fixed number of frame-sized slots with a list of the free ones. Nothing
/// is allocated after [`FramePool::new`].
pub struct FramePool {
    slots: Vec<Option<RawFrame>>,
    free: Vec<usize>,
}

impl View for FramePool {
    type V = Map<usize, RawFrame>;

    /// The slots in use, each with the frame it holds.
    closed spec fn view(&self) -> Map<usize, RawFrame> {
        Map::new(
            |slot: usize| slot < self.slots@.len() && self.slots@[slot as int] is Some,
            |slot: usize| self.slots@[slot as int].unwrap(),
        )
    }
}

impl FramePool {
    /// Number of slots, free or not.
    pub closed spec fn capacity(&self) -> nat {
        self.slots@.len()
    }

    /// Number of free slots.
    pub closed spec fn available(&self) -> nat {
        self.free@.len()
    }

    /// The free list names free slots, each once, and every slot is either on
    /// it or in use.
    pub closed spec fn wf(&self) -> bool {
        &&& self.free@.no_duplicates()
        &&& forall|i: int|
            0 <= i < self.free@.len() ==> (#[trigger] self.free@[i]) < self.slots@.len()
                && self.slots@[self.free@[i] as int] is None
        &&& self@.dom().finite()
        &&& self.free@.len() + self@.dom().len() == self.slots@.len()
    }

    /// No slot is lost: the free slots and the slots in use make up the pool.
    pub proof fn lemma_slots_are_conserved(&self)
        requires
            self.wf(),
        ensures
            self@.dom().finite(),
            self.available() + self@.dom().len() == self.capacity(),
    {
    }

    /// Once every handle has been released the whole pool is free again.
    pub proof fn lemma_all_released_is_full(&self)
        requires
            self.wf(),
            self@.dom() =~= Set::<usize>::empty(),
        ensures
            self.available() == self.capacity(),
    {
    }

    /// A pool of `capacity` slots, all free.
    pub fn new(capacity: usize) -> (pool: FramePool)
        ensures
            pool.wf(),
            pool.capacity() == capacity,
            pool.available() == capacity,
            pool@ == Map::<usize, RawFrame>::empty(),
    {
        let mut slots: Vec<Option<RawFrame>> = Vec::new();
        let mut free: Vec<usize> = Vec::new();
        let mut i: usize = 0;
        while i < capacity
            invariant
                i <= capacity,
                slots@.len() == i,
                free@.len() == i,
                forall|k: int| 0 <= k < i ==> slots@[k] is None,
                forall|k: int| 0 <= k < i ==> free@[k] == k,
            decreases capacity - i,
        {
            slots.push(None);
            free.push(i);
            i += 1;
        }
        let pool = FramePool { slots, free };
        proof {
            assert(pool@ =~= Map::<usize, RawFrame>::empty());
        }
        pool
    }

    /// Computes [`FramePool::available`].
    pub fn available_slots(&self) -> (count: usize)
        ensures
            count == self.available(),
    {
        self.free.len()
    }

    /// Computes [`FramePool::capacity`].
    pub fn total_slots(&self) -> (count: usize)
        ensures
            count == self.capacity(),
    {
        self.slots.len()
    }

    /// Puts `frame` into a free slot and hands out the slot's handle. Fails,
    /// changing nothing, exactly when no slot is free.
    pub fn allocate(&mut self, frame: RawFrame) -> (result: Result<FrameHandle, PoolExhausted>)
        requires
            old(self).wf(),
        ensures
            final(self).wf(),
            final(self).capacity() == old(self).capacity(),
            result is Err <==> old(self).available() == 0,
            result is Err ==> final(self)@ == old(self)@ && final(self).available() == old(self).available(),
            result matches Ok(handle) ==> !old(self)@.dom().contains(handle.slot()) && final(self)@
                == old(self)@.insert(handle.slot(), frame) && final(self).available() + 1 == old(self).available(),
    {
        if self.free.len() == 0 {
            return Err(PoolExhausted);
        }
        let ghost before = *self;
        let slot = self.free.pop().unwrap();
        assert(slot == before.free@[before.free@.len() - 1]);
        self.slots.set(slot, Some(frame));
        proof {
            assert(self@ =~= before@.insert(slot, frame));
            assert(!before@.dom().contains(slot));
            assert forall|i: int| 0 <= i < self.free@.len() implies (#[trigger] self.free@[i])
                < self.slots@.len() && self.slots@[self.free@[i] as int] is None by {
                assert(self.free@[i] == before.free@[i]);
                assert(before.free@[i] != before.free@[before.free@.len() - 1]);
            }
        }
        Ok(FrameHandle { slot })
    }

    /// The frame in the handle's slot.
    pub fn get(&self, handle: &FrameHandle) -> (frame: RawFrame)
        requires
            self@.dom().contains(handle.slot()),
        ensures
            frame == self@[handle.slot()],
    {
        self.slots[handle.slot].unwrap()
    }

    /// Takes the handle back: its slot is free again and its frame is
    /// returned.
    pub fn release(&mut self, handle: FrameHandle) -> (frame: RawFrame)
        requires
            old(self).wf(),
            old(self)@.dom().contains(handle.slot()),
        ensures
            final(self).wf(),
            final(self).capacity() == old(self).capacity(),
            frame == old(self)@[handle.slot()],
            final(self)@ == old(self)@.remove(handle.slot()),
            final(self).available() == old(self).available() + 1,
    {
        let ghost before = *self;
        let slot = handle.slot;
        let frame = self.slots[slot].unwrap();
        self.slots.set(slot, None);
        self.free.push(slot);
        proof {
            assert(self@ =~= before@.remove(slot));
            assert forall|i: int, j: int|
                0 <= i < self.free@.len() && 0 <= j < self.free@.len() && i != j implies self.free@[i]
                != self.free@[j] by {
                if i < before.free@.len() {
                    assert(self.free@[i] == before.free@[i]);
                }
                if j < before.free@.len() {
                    assert(self.free@[j] == before.free@[j]);
                }
            }
        }
        frame
    }
}

} // verus!
