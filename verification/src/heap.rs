use vstd::multiset::Multiset;
use vstd::prelude::*;

verus! {

/// Number of frames that the transmit queue can hold.
pub const QUEUE_CAPACITY: usize = 16;

/// A `heapless::BinaryHeap` of `(rank, slot)` pairs with the greatest pair
/// on top; pairs are ordered by rank first, by slot on equal rank. It holds
/// at most [`QUEUE_CAPACITY`] pairs and never allocates. The heap's own
/// type is bounded by a trait that `heapless` keeps private, so it is held
/// here as a field that the verifier does not look into; what is known of it
/// is what the functions below state of [`heap_entries`].
#[verifier::external_body]
pub struct FrameHeap {
    inner: heapless::BinaryHeap<(u64, usize), heapless::consts::U16, heapless::binary_heap::Max>,
}

/// The pairs that a heap holds.
pub uninterp spec fn heap_entries(heap: FrameHeap) -> Multiset<(u64, usize)>;

/// The order of pairs: by the first part, then by the second.
pub open spec fn entry_le(a: (u64, usize), b: (u64, usize)) -> bool {
    a.0 < b.0 || (a.0 == b.0 && a.1 <= b.1)
}

impl FrameHeap {
    /// `heapless::BinaryHeap::new`: a heap that holds nothing.
    #[verifier::external_body]
    pub(crate) fn new() -> (heap: FrameHeap)
        ensures
            heap_entries(heap) == Multiset::<(u64, usize)>::empty(),
    {
        FrameHeap { inner: heapless::BinaryHeap::new() }
    }

    /// `heapless::BinaryHeap::len`: the number of pairs held.
    #[verifier::external_body]
    pub(crate) fn len(&self) -> (count: usize)
        ensures
            count == heap_entries(*self).len(),
    {
        self.inner.len()
    }

    /// `heapless::BinaryHeap::push`: adds the pair unless the heap is at
    /// capacity; then the pair comes back and the heap is as it was.
    #[verifier::external_body]
    pub(crate) fn push(&mut self, entry: (u64, usize)) -> (result: Result<(), (u64, usize)>)
        ensures
            result is Ok <==> heap_entries(*old(self)).len() < QUEUE_CAPACITY,
            result is Ok ==> heap_entries(*final(self)) == heap_entries(*old(self)).insert(entry),
            result matches Err(back) ==> back == entry && heap_entries(*final(self))
                == heap_entries(*old(self)),
    {
        self.inner.push(entry)
    }

    /// `heapless::BinaryHeap::peek`, copied out: a greatest pair of the heap,
    /// or nothing where the heap is empty.
    #[verifier::external_body]
    pub(crate) fn peek(&self) -> (top: Option<(u64, usize)>)
        ensures
            top is None <==> heap_entries(*self).len() == 0,
            top matches Some(entry) ==> heap_entries(*self).count(entry) > 0 && forall|
                other: (u64, usize),
            |
                heap_entries(*self).count(other) > 0 ==> entry_le(other, entry),
    {
        self.inner.peek().copied()
    }

    /// `heapless::BinaryHeap::pop`: takes a greatest pair out of the heap, or
    /// nothing where the heap is empty.
    #[verifier::external_body]
    pub(crate) fn pop(&mut self) -> (top: Option<(u64, usize)>)
        ensures
            top is None <==> heap_entries(*old(self)).len() == 0,
            top is None ==> heap_entries(*final(self)) == heap_entries(*old(self)),
            top matches Some(entry) ==> heap_entries(*old(self)).count(entry) > 0 && heap_entries(
                *final(self),
            ) == heap_entries(*old(self)).remove(entry) && forall|other: (u64, usize)|
                heap_entries(*old(self)).count(other) > 0 ==> entry_le(other, entry),
    {
        self.inner.pop()
    }
}

} // verus!
