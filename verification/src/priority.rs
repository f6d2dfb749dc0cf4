use crate::can::RawFrame;
use core::cmp::Ordering;
use vstd::prelude::*;
use vstd::std_specs::cmp::{PartialEqSpec, PartialOrdSpec};

verus! {

/// The rank of the frame that wins arbitration against every other.
pub const RANK_TOP: u64 = 0xFFFF_FFFF_FFFF_FFFF;

/// A frame that compares by its place in bus arbitration and by nothing
/// else: two frames with the same identifier and kind are equal here whatever
/// they carry, and the frame that the bus would send first is the greater.
#[derive(Clone, Copy, Debug)]
pub struct PriorityFrame(pub RawFrame);

impl PriorityFrame {
    /// The frame's rank: the higher, the sooner the frame is sent.
    pub open spec fn rank_of(self) -> u64 {
        (RANK_TOP - self.0.arbitration()) as u64
    }

    /// Computes [`PriorityFrame::rank_of`].
    pub fn rank(&self) -> (rank: u64)
        ensures
            rank == self.rank_of(),
            rank == RANK_TOP - self.0.arbitration(),
    {
        RANK_TOP - self.0.arbitration_value()
    }
}

impl PartialEq for PriorityFrame {
    fn eq(&self, other: &Self) -> (equal: bool) {
        self.rank() == other.rank()
    }
}

impl Eq for PriorityFrame {

}

impl vstd::std_specs::cmp::PartialEqSpecImpl for PriorityFrame {
    open spec fn obeys_eq_spec() -> bool {
        true
    }

    open spec fn eq_spec(&self, other: &Self) -> bool {
        self.rank_of() == other.rank_of()
    }
}

impl PartialOrd for PriorityFrame {
    fn partial_cmp(&self, other: &Self) -> (order: Option<Ordering>) {
        let mine = self.rank();
        let theirs = other.rank();
        if mine < theirs {
            Some(Ordering::Less)
        } else if mine == theirs {
            Some(Ordering::Equal)
        } else {
            Some(Ordering::Greater)
        }
    }
}

impl vstd::std_specs::cmp::PartialOrdSpecImpl for PriorityFrame {
    open spec fn obeys_partial_cmp_spec() -> bool {
        true
    }

    open spec fn partial_cmp_spec(&self, other: &Self) -> Option<Ordering> {
        if self.rank_of() < other.rank_of() {
            Some(Ordering::Less)
        } else if self.rank_of() == other.rank_of() {
            Some(Ordering::Equal)
        } else {
            Some(Ordering::Greater)
        }
    }
}

/// Two frames compare as their places in bus arbitration do, whatever they
/// carry: they are equal where the places are, and the greater is the one
/// that the bus sends first.
pub proof fn lemma_order_is_that_of_arbitration(a: PriorityFrame, b: PriorityFrame)
    ensures
        a.eq_spec(&b) <==> a.0.arbitration() == b.0.arbitration(),
        a.partial_cmp_spec(&b) == Some(Ordering::Equal) <==> a.0.arbitration()
            == b.0.arbitration(),
        a.partial_cmp_spec(&b) == Some(Ordering::Greater) <==> a.0.arbitration()
            < b.0.arbitration(),
        a.partial_cmp_spec(&b) == Some(Ordering::Less) <==> a.0.arbitration()
            > b.0.arbitration(),
{
}

} // verus!
