use crate::can::{FrameId, IntoWithId, OutgoingFrame, RawFrame};
use crate::heap::{entry_le, heap_entries, FrameHeap, QUEUE_CAPACITY};
use crate::link::link_ok;
use crate::pool::{FrameHandle, FramePool};
use crate::priority::PriorityFrame;
use vstd::prelude::*;

verus! {

/// Why a frame was not queued. The frame is dropped, never retried.
#[derive(Clone, Copy, Debug, PartialEq, Eq, Structural)]
pub enum QueueError {
    /// The frame pool has no free slot.
    PoolExhausted,
    /// The queue holds as many frames as it can.
    QueueFull,
}

/// What the transceiver did with the frame at the head of the queue.
#[derive(Clone, Copy, Debug)]
pub enum TransmitOutcome {
    /// The frame is in a mailbox and no other frame had to leave one.
    Sent,
    /// The frame is in a mailbox, from which this less urgent frame was taken
    /// out again.
    Bumped(RawFrame),
    /// Every mailbox holds a frame that is at least as urgent.
    WouldBlock,
}

/// `frame` goes before every frame of `entries` in bus arbitration, or ties
/// with it.
pub open spec fn most_urgent(entries: Map<usize, RawFrame>, frame: RawFrame) -> bool {
    forall|slot: usize| #[trigger]
        entries.dom().contains(slot) ==> frame.arbitration() <= entries[slot].arbitration()
}

/// The frame in `slot` is the head of `entries`: it goes before every other
/// in bus arbitration, and of the frames that tie with it, it sits in the
/// highest slot.
pub open spec fn is_head(entries: Map<usize, RawFrame>, slot: usize) -> bool {
    &&& entries.dom().contains(slot)
    &&& forall|other: usize| #[trigger]
        entries.dom().contains(other) ==> entries[slot].arbitration()
            < entries[other].arbitration() || (entries[slot].arbitration()
            == entries[other].arbitration() && other <= slot)
}

/// Queued frames have one head, and none is more urgent than it.
pub proof fn lemma_head_is_unique(entries: Map<usize, RawFrame>, a: usize, b: usize)
    requires
        is_head(entries, a),
        is_head(entries, b),
    ensures
        a == b,
        most_urgent(entries, entries[a]),
{
}

/// Taking the head off `before` gives `frame` and leaves `after`: the frame
/// was the head, and only it has left.
pub open spec fn takes_head(
    before: Map<usize, RawFrame>,
    frame: RawFrame,
    after: Map<usize, RawFrame>,
) -> bool {
    exists|slot: usize| #[trigger]
        is_head(before, slot) && before[slot] == frame && after == before.remove(slot)
}

/// `frame` is the head of `entries`.
pub open spec fn shows_head(entries: Map<usize, RawFrame>, frame: RawFrame) -> bool {
    exists|slot: usize| #[trigger] is_head(entries, slot) && entries[slot] == frame
}

/// The frame that leaves the queue is the one that a look at the head
/// showed just before.
pub proof fn lemma_pop_takes_what_peek_showed(
    before: Map<usize, RawFrame>,
    shown: RawFrame,
    taken: RawFrame,
    after: Map<usize, RawFrame>,
)
    requires
        shows_head(before, shown),
        takes_head(before, taken, after),
    ensures
        shown == taken,
        most_urgent(before, taken),
{
    let a = choose|slot: usize| #[trigger] is_head(before, slot) && before[slot] == shown;
    let b = choose|slot: usize| #[trigger]
        is_head(before, slot) && before[slot] == taken && after == before.remove(slot);
    lemma_head_is_unique(before, a, b);
}

/// Queueing `frame` on `before` gives `after`: the frame sits in a slot that
/// held nothing, and every other slot is as it was.
pub open spec fn adds_frame(
    before: Map<usize, RawFrame>,
    frame: RawFrame,
    after: Map<usize, RawFrame>,
) -> bool {
    exists|slot: usize|
        !(#[trigger] before.dom().contains(slot)) && after == before.insert(slot, frame)
}

/// Whether a frame is let into a queue that holds `len` frames and whose
/// pool has `free_slots` free slots: not without a free slot, and with one
/// not into a queue at capacity.
pub open spec fn admission(free_slots: nat, len: nat) -> Result<(), QueueError> {
    if free_slots == 0 {
        Err(QueueError::PoolExhausted)
    } else if len >= QUEUE_CAPACITY {
        Err(QueueError::QueueFull)
    } else {
        Ok(())
    }
}

/// Frames that leave the queue one after the other, with nothing queued in
/// between, leave in arbitration order: the second is no more urgent than
/// the first.
pub proof fn lemma_pops_come_in_arbitration_order(
    start: Map<usize, RawFrame>,
    first: RawFrame,
    middle: Map<usize, RawFrame>,
    second: RawFrame,
    end: Map<usize, RawFrame>,
)
    requires
        takes_head(start, first, middle),
        takes_head(middle, second, end),
    ensures
        first.arbitration() <= second.arbitration(),
{
    let slot_a = choose|slot: usize| #[trigger]
        is_head(start, slot) && start[slot] == first && middle == start.remove(slot);
    let slot_b = choose|slot: usize| #[trigger]
        is_head(middle, slot) && middle[slot] == second && end == middle.remove(slot);
    assert(start.dom().contains(slot_b));
    assert(start[slot_b] == second);
}

/// Taking the head off `before` again and again, with nothing queued in
/// between, gives the frames of `popped` in their order and leaves `after`.
pub open spec fn drains(
    before: Map<usize, RawFrame>,
    popped: Seq<RawFrame>,
    after: Map<usize, RawFrame>,
) -> bool
    decreases popped.len(),
{
    if popped.len() == 0 {
        after == before
    } else {
        exists|middle: Map<usize, RawFrame>| #[trigger]
            takes_head(before, popped[0], middle) && drains(middle, popped.drop_first(), after)
    }
}

/// Every frame that a run of pops gives was queued when the run began.
pub proof fn lemma_drained_frames_were_queued(
    before: Map<usize, RawFrame>,
    popped: Seq<RawFrame>,
    after: Map<usize, RawFrame>,
    k: int,
)
    requires
        drains(before, popped, after),
        0 <= k < popped.len(),
    ensures
        exists|slot: usize| #[trigger] before.dom().contains(slot) && before[slot] == popped[k],
    decreases popped.len(),
{
    let middle = choose|middle: Map<usize, RawFrame>| #[trigger]
        takes_head(before, popped[0], middle) && drains(middle, popped.drop_first(), after);
    let head = choose|slot: usize| #[trigger]
        is_head(before, slot) && before[slot] == popped[0] && middle == before.remove(slot);
    if k == 0 {
        assert(before.dom().contains(head) && before[head] == popped[k]);
    } else {
        lemma_drained_frames_were_queued(middle, popped.drop_first(), after, k - 1);
        let slot = choose|slot: usize| #[trigger]
            middle.dom().contains(slot) && middle[slot] == popped.drop_first()[k - 1];
        assert(before.dom().contains(slot) && before[slot] == popped[k]);
    }
}

/// A run of pops with nothing queued in between gives its frames in
/// arbitration order: none is more urgent than one that came before it.
pub proof fn lemma_drain_is_in_arbitration_order(
    before: Map<usize, RawFrame>,
    popped: Seq<RawFrame>,
    after: Map<usize, RawFrame>,
    i: int,
    j: int,
)
    requires
        drains(before, popped, after),
        0 <= i <= j < popped.len(),
    ensures
        popped[i].arbitration() <= popped[j].arbitration(),
    decreases popped.len(),
{
    let middle = choose|middle: Map<usize, RawFrame>| #[trigger]
        takes_head(before, popped[0], middle) && drains(middle, popped.drop_first(), after);
    if i == 0 {
        let head = choose|slot: usize| #[trigger]
            is_head(before, slot) && before[slot] == popped[0] && middle == before.remove(slot);
        lemma_drained_frames_were_queued(before, popped, after, j);
        let slot = choose|slot: usize| #[trigger]
            before.dom().contains(slot) && before[slot] == popped[j];
        assert(before.dom().contains(slot));
    } else {
        lemma_drain_is_in_arbitration_order(middle, popped.drop_first(), after, i - 1, j - 1);
    }
}

/// The head of the queue is no less urgent than a frame that was just
/// queued, nor than any frame that was queued before that.
pub proof fn lemma_head_outranks_later_pushes(
    before: Map<usize, RawFrame>,
    pushed: RawFrame,
    queued: Map<usize, RawFrame>,
    head: RawFrame,
    after: Map<usize, RawFrame>,
)
    requires
        adds_frame(before, pushed, queued),
        takes_head(queued, head, after),
    ensures
        head.arbitration() <= pushed.arbitration(),
        most_urgent(before, head),
{
    let slot_p = choose|slot: usize|
        !(#[trigger] before.dom().contains(slot)) && queued == before.insert(slot, pushed);
    let slot_h = choose|slot: usize| #[trigger]
        is_head(queued, slot) && queued[slot] == head && after == queued.remove(slot);
    assert(queued.dom().contains(slot_p));
    assert(queued[slot_p] == pushed);
    assert forall|slot: usize| #[trigger] before.dom().contains(slot) implies head.arbitration()
        <= before[slot].arbitration() by {
        assert(queued.dom().contains(slot));
        assert(queued[slot] == before[slot]);
    }
}

/// The frames that wait for the bus, most urgent first, each in a slot of
/// the queue's frame pool.
pub struct TxQueue {
    heap: FrameHeap,
    pool: FramePool,
}

impl View for TxQueue {
    type V = Map<usize, RawFrame>;

    /// The queued frames, each under the pool slot that holds it.
    closed spec fn view(&self) -> Map<usize, RawFrame> {
        self.pool@
    }
}

impl TxQueue {
    /// Number of queued frames.
    pub closed spec fn len(&self) -> nat {
        heap_entries(self.heap).len()
    }

    /// Number of free slots in the queue's frame pool.
    pub closed spec fn free_slots(&self) -> nat {
        self.pool.available()
    }

    /// Number of slots in the queue's frame pool.
    pub closed spec fn pool_slots(&self) -> nat {
        self.pool.capacity()
    }

    /// The heap holds one pair for each frame in the pool, made of the
    /// frame's rank and its slot, and nothing else.
    pub closed spec fn wf(&self) -> bool {
        &&& self.pool.wf()
        &&& forall|entry: (u64, usize)| #[trigger]
            heap_entries(self.heap).count(entry) == (if self.pool@.dom().contains(entry.1)
                && PriorityFrame(self.pool@[entry.1]).rank_of() == entry.0 {
                1nat
            } else {
                0nat
            })
        &&& heap_entries(self.heap).len() == self.pool@.dom().len()
        &&& heap_entries(self.heap).len() <= QUEUE_CAPACITY
    }

    /// The queue's length is the number of its frames, and with the free
    /// slots they make up the pool.
    pub proof fn lemma_len_counts_frames(&self)
        requires
            self.wf(),
        ensures
            self@.dom().finite(),
            self@.dom().len() == self.len(),
            self.len() + self.free_slots() == self.pool_slots(),
            self.len() <= QUEUE_CAPACITY,
    {
        self.pool.lemma_slots_are_conserved();
    }

    /// An empty queue over a pool of `pool_slots` slots.
    pub fn new(pool_slots: usize) -> (queue: TxQueue)
        ensures
            queue.wf(),
            queue@ == Map::<usize, RawFrame>::empty(),
            queue.len() == 0,
            queue.free_slots() == pool_slots,
            queue.pool_slots() == pool_slots,
    {
        TxQueue { heap: FrameHeap::new(), pool: FramePool::new(pool_slots) }
    }

    /// Computes [`TxQueue::len`].
    pub fn queued(&self) -> (count: usize)
        ensures
            count == self.len(),
    {
        self.heap.len()
    }

    /// Whether nothing is queued.
    pub fn is_empty(&self) -> (empty: bool)
        ensures
            empty <==> self.len() == 0,
    {
        self.heap.len() == 0
    }

    /// Queues a frame. A frame is refused, and the queue left as it was, when
    /// the pool has no free slot or, failing that, when the queue is at
    /// capacity.
    pub fn push(&mut self, frame: RawFrame) -> (result: Result<(), QueueError>)
        requires
            old(self).wf(),
        ensures
            final(self).wf(),
            final(self).pool_slots() == old(self).pool_slots(),
            result == admission(old(self).free_slots(), old(self).len()),
            result is Err ==> final(self)@ == old(self)@ && final(self).len() == old(self).len()
                && final(self).free_slots() == old(self).free_slots(),
            result is Ok ==> adds_frame(old(self)@, frame, final(self)@) && final(self).len()
                == old(self).len() + 1 && final(self).free_slots() + 1 == old(self).free_slots(),
    {
        let ghost before = *self;
        let handle = match self.pool.allocate(frame) {
            Ok(handle) => handle,
            Err(_) => {
                return Err(QueueError::PoolExhausted);
            },
        };
        let slot = handle.index();
        let rank = PriorityFrame(frame).rank();
        match self.heap.push((rank, slot)) {
            Ok(()) => {
                proof {
                    assert(!before.pool@.dom().contains(slot));
                    self.pool.lemma_slots_are_conserved();
                    before.pool.lemma_slots_are_conserved();
                    assert forall|entry: (u64, usize)| #[trigger]
                        heap_entries(self.heap).count(entry) == (if self.pool@.dom().contains(
                            entry.1,
                        ) && PriorityFrame(self.pool@[entry.1]).rank_of() == entry.0 {
                            1nat
                        } else {
                            0nat
                        }) by {
                        assert(heap_entries(before.heap).count(entry) == (
                        if before.pool@.dom().contains(entry.1) && PriorityFrame(
                            before.pool@[entry.1],
                        ).rank_of() == entry.0 {
                            1nat
                        } else {
                            0nat
                        }));
                    }
                }
                Ok(())
            },
            Err(_) => {
                let _ = self.pool.release(handle);
                proof {
                    assert(self.pool@ =~= before.pool@);
                }
                Err(QueueError::QueueFull)
            },
        }
    }

    /// Encodes an event as a frame of the node `node` and queues it; the
    /// event is refused as a frame is by [`TxQueue::push`].
    pub fn queue_event(&mut self, event: OutgoingFrame, node: FrameId) -> (result: Result<
        (),
        QueueError,
    >)
        requires
            old(self).wf(),
            node.wf(),
        ensures
            final(self).wf(),
            final(self).pool_slots() == old(self).pool_slots(),
            result == admission(old(self).free_slots(), old(self).len()),
            result is Err ==> final(self)@ == old(self)@ && final(self).len() == old(self).len()
                && final(self).free_slots() == old(self).free_slots(),
            result is Ok ==> final(self).len() == old(self).len() + 1 && exists|frame: RawFrame|
                event.encodes_as(node, frame) && #[trigger] adds_frame(
                    old(self)@,
                    frame,
                    final(self)@,
                ),
    {
        let frame: RawFrame = event.into_with_id(node);
        let result = self.push(frame);
        proof {
            if result is Ok {
                assert(adds_frame(old(self)@, frame, self@));
            }
        }
        result
    }

    /// The most urgent queued frame, which stays queued.
    pub fn peek(&self) -> (head: Option<RawFrame>)
        requires
            self.wf(),
        ensures
            head is None <==> self.len() == 0,
            head matches Some(frame) ==> shows_head(self@, frame),
    {
        match self.heap.peek() {
            None => None,
            Some(entry) => {
                let handle = FrameHandle::from_slot(entry.1);
                let frame = self.pool.get(&handle);
                proof {
                    self.lemma_top_entry_is_head(entry);
                }
                Some(frame)
            },
        }
    }

    /// The most urgent queued frame while the bus link is alive; nothing
    /// while it is not, whatever is queued.
    pub fn transmit_candidate(&self, last_rx: Option<u32>, now: u32) -> (head: Option<RawFrame>)
        requires
            self.wf(),
        ensures
            !link_ok(last_rx, now) ==> head is None,
            link_ok(last_rx, now) ==> (head is None <==> self.len() == 0),
            head matches Some(frame) ==> shows_head(self@, frame),
    {
        if crate::link::is_link_ok(last_rx, now) {
            self.peek()
        } else {
            None
        }
    }

    /// Takes the most urgent frame off the queue and frees its slot.
    pub fn pop(&mut self) -> (head: Option<RawFrame>)
        requires
            old(self).wf(),
        ensures
            final(self).wf(),
            final(self).pool_slots() == old(self).pool_slots(),
            head is None <==> old(self).len() == 0,
            head is None ==> final(self)@ == old(self)@ && final(self).len() == old(self).len()
                && final(self).free_slots() == old(self).free_slots(),
            head matches Some(frame) ==> takes_head(old(self)@, frame, final(self)@) && final(self).len() + 1 == old(self).len() && final(self).free_slots() == old(self).free_slots()
                + 1,
    {
        let ghost before = *self;
        match self.heap.pop() {
            None => None,
            Some(entry) => {
                proof {
                    before.lemma_top_entry_is_head(entry);
                }
                let handle = FrameHandle::from_slot(entry.1);
                let frame = self.pool.release(handle);
                proof {
                    assert(before@.dom().contains(entry.1));
                    self.pool.lemma_slots_are_conserved();
                    before.pool.lemma_slots_are_conserved();
                    assert forall|other: (u64, usize)| #[trigger]
                        heap_entries(self.heap).count(other) == (if self.pool@.dom().contains(
                            other.1,
                        ) && PriorityFrame(self.pool@[other.1]).rank_of() == other.0 {
                            1nat
                        } else {
                            0nat
                        }) by {
                        assert(heap_entries(before.heap).count(other) == (
                        if before.pool@.dom().contains(other.1) && PriorityFrame(
                            before.pool@[other.1],
                        ).rank_of() == other.0 {
                            1nat
                        } else {
                            0nat
                        }));
                    }
                }
                Some(frame)
            },
        }
    }

    /// Takes note of what the transceiver did with the head of the queue, and
    /// says whether the next frame may be tried. A frame that was sent leaves
    /// the queue. A frame that took another's mailbox leaves it too and the
    /// other frame is queued in its place. When the transceiver would block
    /// the queue stays as it is and draining stops.
    pub fn complete_transmit(&mut self, outcome: TransmitOutcome) -> (more: bool)
        requires
            old(self).wf(),
            outcome is WouldBlock || old(self).len() > 0,
        ensures
            final(self).wf(),
            final(self).pool_slots() == old(self).pool_slots(),
            more <==> !(outcome is WouldBlock),
            outcome is WouldBlock ==> final(self)@ == old(self)@ && final(self).len() == old(self).len(),
            outcome is Sent ==> final(self).len() + 1 == old(self).len() && exists|head: RawFrame|
                #[trigger] takes_head(old(self)@, head, final(self)@),
            outcome matches TransmitOutcome::Bumped(bumped) ==> final(self).len() == old(self).len() && exists|head: RawFrame, between: Map<usize, RawFrame>|
                #[trigger] takes_head(old(self)@, head, between) && #[trigger] adds_frame(
                    between,
                    bumped,
                    final(self)@,
                ),
    {
        match outcome {
            TransmitOutcome::WouldBlock => false,
            TransmitOutcome::Sent => {
                let head = self.pop();
                proof {
                    assert(takes_head(old(self)@, head.unwrap(), self@));
                }
                true
            },
            TransmitOutcome::Bumped(bumped) => {
                let head = self.pop();
                let ghost between = self@;
                proof {
                    self.lemma_len_counts_frames();
                    old(self).lemma_len_counts_frames();
                }
                let queued = self.push(bumped);
                proof {
                    assert(queued is Ok);
                    assert(takes_head(old(self)@, head.unwrap(), between));
                    assert(adds_frame(between, bumped, self@));
                }
                true
            },
        }
    }

    /// The pair that the heap gives as its greatest stands for the head.
    proof fn lemma_top_entry_is_head(&self, entry: (u64, usize))
        requires
            self.wf(),
            heap_entries(self.heap).count(entry) > 0,
            forall|other: (u64, usize)|
                heap_entries(self.heap).count(other) > 0 ==> entry_le(other, entry),
        ensures
            is_head(self@, entry.1),
            PriorityFrame(self@[entry.1]).rank_of() == entry.0,
    {
        assert forall|slot: usize| #[trigger] self@.dom().contains(slot) implies self@[entry.1].arbitration()
            < self@[slot].arbitration() || (self@[entry.1].arbitration()
            == self@[slot].arbitration() && slot <= entry.1) by {
            let other = (PriorityFrame(self@[slot]).rank_of(), slot);
            assert(heap_entries(self.heap).count(other) == 1);
            assert(entry_le(other, entry));
        }
    }
}

} // verus!
