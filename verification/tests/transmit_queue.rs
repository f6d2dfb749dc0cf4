use motor_controller::can::{FrameId, IncomingFrame, IntoWithId, OutgoingFrame, RawFrame};
use motor_controller::control::ControlState;
use motor_controller::heap::QUEUE_CAPACITY;
use motor_controller::pool::{FramePool, PoolExhausted, POOL_CAPACITY};
use motor_controller::priority::PriorityFrame;
use motor_controller::queue::{QueueError, TransmitOutcome, TxQueue};
use std::cmp::Ordering;

fn frame(id: u16, tag: u8) -> RawFrame {
    RawFrame::new_data(FrameId::Standard(id), &[tag]).unwrap()
}

#[test]
fn capacities() {
    assert_eq!(QUEUE_CAPACITY, 16);
    assert_eq!(POOL_CAPACITY, 128);
}

#[test]
fn new_queue_is_empty() {
    let mut queue = TxQueue::new(POOL_CAPACITY);
    assert!(queue.is_empty());
    assert_eq!(queue.queued(), 0);
    assert_eq!(queue.peek(), None);
    assert_eq!(queue.pop(), None);
    assert_eq!(queue.queued(), 0);
}

#[test]
fn lower_identifier_pops_first() {
    let mut queue = TxQueue::new(POOL_CAPACITY);
    for id in [0x305u16, 0x101, 0x203, 0x7FF, 0x000, 0x102] {
        assert_eq!(queue.push(frame(id, 0)), Ok(()));
    }
    assert_eq!(queue.queued(), 6);
    let mut popped = Vec::new();
    while let Some(head) = queue.pop() {
        popped.push(head.id);
    }
    assert_eq!(
        popped,
        vec![
            FrameId::Standard(0x000),
            FrameId::Standard(0x101),
            FrameId::Standard(0x102),
            FrameId::Standard(0x203),
            FrameId::Standard(0x305),
            FrameId::Standard(0x7FF),
        ]
    );
    assert!(queue.is_empty());
}

#[test]
fn pops_interleaved_with_pushes_give_the_most_urgent_queued() {
    let mut queue = TxQueue::new(POOL_CAPACITY);
    assert_eq!(queue.push(frame(0x300, 1)), Ok(()));
    assert_eq!(queue.push(frame(0x200, 2)), Ok(()));
    assert_eq!(queue.pop(), Some(frame(0x200, 2)));
    assert_eq!(queue.push(frame(0x100, 3)), Ok(()));
    assert_eq!(queue.push(frame(0x400, 4)), Ok(()));
    assert_eq!(queue.pop(), Some(frame(0x100, 3)));
    assert_eq!(queue.pop(), Some(frame(0x300, 1)));
    assert_eq!(queue.pop(), Some(frame(0x400, 4)));
    assert_eq!(queue.pop(), None);
}

#[test]
fn peek_leaves_the_head_queued() {
    let mut queue = TxQueue::new(POOL_CAPACITY);
    assert_eq!(queue.push(frame(0x105, 9)), Ok(()));
    assert_eq!(queue.push(frame(0x005, 8)), Ok(()));
    assert_eq!(queue.peek(), Some(frame(0x005, 8)));
    assert_eq!(queue.peek(), Some(frame(0x005, 8)));
    assert_eq!(queue.queued(), 2);
    assert_eq!(queue.pop(), Some(frame(0x005, 8)));
    assert_eq!(queue.peek(), Some(frame(0x105, 9)));
}

#[test]
fn frames_come_back_with_their_payload() {
    let mut queue = TxQueue::new(POOL_CAPACITY);
    let event = OutgoingFrame::Update {
        current_now: 1.25f32.to_bits(),
        duty_now: 1234,
    };
    let encoded: RawFrame = event.into_with_id(FrameId::Standard(7));
    assert_eq!(queue.push(encoded), Ok(()));
    assert_eq!(queue.pop(), Some(encoded));
}

#[test]
fn push_beyond_capacity_fails_and_keeps_the_entries() {
    let mut queue = TxQueue::new(POOL_CAPACITY);
    for i in 0..16u16 {
        assert_eq!(queue.push(frame(0x100 + (15 - i), i as u8)), Ok(()));
    }
    assert_eq!(queue.queued(), 16);
    assert_eq!(queue.push(frame(0x001, 99)), Err(QueueError::QueueFull));
    assert_eq!(queue.push(frame(0x7FF, 98)), Err(QueueError::QueueFull));
    assert_eq!(queue.queued(), 16);
    for i in 0..16u16 {
        assert_eq!(queue.pop(), Some(frame(0x100 + i, (15 - i) as u8)));
    }
    assert_eq!(queue.pop(), None);
    // The slots of the refused frames were given back.
    for i in 0..16u16 {
        assert_eq!(queue.push(frame(i, 0)), Ok(()));
    }
}

#[test]
fn queue_over_a_small_pool_runs_out_of_slots() {
    let mut queue = TxQueue::new(2);
    assert_eq!(queue.push(frame(3, 0)), Ok(()));
    assert_eq!(queue.push(frame(2, 0)), Ok(()));
    assert_eq!(queue.push(frame(1, 0)), Err(QueueError::PoolExhausted));
    assert_eq!(queue.queued(), 2);
    assert_eq!(queue.pop(), Some(frame(2, 0)));
    assert_eq!(queue.push(frame(1, 0)), Ok(()));
    assert_eq!(queue.pop(), Some(frame(1, 0)));
    assert_eq!(queue.pop(), Some(frame(3, 0)));
    let mut none = TxQueue::new(0);
    assert_eq!(none.push(frame(1, 0)), Err(QueueError::PoolExhausted));
}

#[test]
fn pool_hands_out_each_slot_once() {
    let mut pool = FramePool::new(3);
    assert_eq!(pool.total_slots(), 3);
    assert_eq!(pool.available_slots(), 3);
    let a = pool.allocate(frame(1, 1)).unwrap();
    let b = pool.allocate(frame(2, 2)).unwrap();
    let c = pool.allocate(frame(3, 3)).unwrap();
    assert_ne!(a.index(), b.index());
    assert_ne!(a.index(), c.index());
    assert_ne!(b.index(), c.index());
    assert!(a.index() < 3 && b.index() < 3 && c.index() < 3);
    assert_eq!(pool.available_slots(), 0);
    assert_eq!(pool.get(&a), frame(1, 1));
    assert_eq!(pool.get(&b), frame(2, 2));
    assert_eq!(pool.get(&c), frame(3, 3));
    assert!(matches!(pool.allocate(frame(4, 4)), Err(PoolExhausted)));
    assert_eq!(pool.available_slots(), 0);
    assert_eq!(pool.get(&a), frame(1, 1));
    assert_eq!(pool.get(&b), frame(2, 2));
    assert_eq!(pool.get(&c), frame(3, 3));
}

#[test]
fn pool_is_full_again_after_every_release() {
    let mut pool = FramePool::new(POOL_CAPACITY);
    let mut handles = Vec::new();
    for i in 0..POOL_CAPACITY {
        handles.push(pool.allocate(frame(i as u16, 0)).unwrap());
    }
    assert_eq!(pool.available_slots(), 0);
    assert!(pool.allocate(frame(0, 0)).is_err());
    let mut expected = POOL_CAPACITY as u16;
    while let Some(handle) = handles.pop() {
        expected -= 1;
        assert_eq!(pool.release(handle), frame(expected, 0));
    }
    assert_eq!(pool.available_slots(), POOL_CAPACITY);
    assert_eq!(pool.total_slots(), POOL_CAPACITY);
    let again = pool.allocate(frame(5, 5)).unwrap();
    assert_eq!(pool.release(again), frame(5, 5));
    assert_eq!(pool.available_slots(), POOL_CAPACITY);
}

#[test]
fn released_slot_is_used_again() {
    let mut pool = FramePool::new(1);
    let first = pool.allocate(frame(1, 1)).unwrap();
    let slot = first.index();
    assert!(pool.allocate(frame(2, 2)).is_err());
    assert_eq!(pool.release(first), frame(1, 1));
    let second = pool.allocate(frame(2, 2)).unwrap();
    assert_eq!(second.index(), slot);
    assert_eq!(pool.get(&second), frame(2, 2));
}

#[test]
fn sent_frame_leaves_the_queue() {
    let mut queue = TxQueue::new(POOL_CAPACITY);
    assert_eq!(queue.push(frame(0x10, 1)), Ok(()));
    assert_eq!(queue.push(frame(0x20, 2)), Ok(()));
    assert!(queue.complete_transmit(TransmitOutcome::Sent));
    assert_eq!(queue.queued(), 1);
    assert_eq!(queue.peek(), Some(frame(0x20, 2)));
}

#[test]
fn bumped_frame_takes_the_place_of_the_head() {
    let mut queue = TxQueue::new(POOL_CAPACITY);
    assert_eq!(queue.push(frame(0x10, 1)), Ok(()));
    assert_eq!(queue.push(frame(0x20, 2)), Ok(()));
    assert!(queue.complete_transmit(TransmitOutcome::Bumped(frame(0x30, 3))));
    assert_eq!(queue.queued(), 2);
    assert_eq!(queue.pop(), Some(frame(0x20, 2)));
    assert_eq!(queue.pop(), Some(frame(0x30, 3)));
}

#[test]
fn bumped_frame_fits_into_a_full_queue() {
    let mut queue = TxQueue::new(16);
    for i in 0..16u16 {
        assert_eq!(queue.push(frame(0x100 + i, 0)), Ok(()));
    }
    assert!(queue.complete_transmit(TransmitOutcome::Bumped(frame(0x200, 7))));
    assert_eq!(queue.queued(), 16);
    assert_eq!(queue.peek(), Some(frame(0x101, 0)));
}

#[test]
fn would_block_stops_draining() {
    let mut queue = TxQueue::new(POOL_CAPACITY);
    assert_eq!(queue.push(frame(0x10, 1)), Ok(()));
    assert!(!queue.complete_transmit(TransmitOutcome::WouldBlock));
    assert_eq!(queue.queued(), 1);
    assert_eq!(queue.peek(), Some(frame(0x10, 1)));
    let mut empty = TxQueue::new(POOL_CAPACITY);
    assert!(!empty.complete_transmit(TransmitOutcome::WouldBlock));
}

#[test]
fn nothing_is_sent_while_the_link_is_stale() {
    let mut queue = TxQueue::new(POOL_CAPACITY);
    let mut state = ControlState::new(None);
    assert_eq!(queue.push(frame(0x10, 1)), Ok(()));
    assert_eq!(queue.transmit_candidate(state.last_rx_instant, 100), None);
    assert_eq!(queue.queued(), 1);
    state.apply_command(IncomingFrame::HeartBeat, 200);
    assert_eq!(
        queue.transmit_candidate(state.last_rx_instant, 201),
        Some(frame(0x10, 1))
    );
    assert_eq!(
        queue.transmit_candidate(state.last_rx_instant, 344),
        Some(frame(0x10, 1))
    );
    assert_eq!(queue.transmit_candidate(state.last_rx_instant, 345), None);
    assert_eq!(queue.queued(), 1);
    state.apply_command(IncomingFrame::Stop, 400);
    assert_eq!(
        queue.transmit_candidate(state.last_rx_instant, 401),
        Some(frame(0x10, 1))
    );
    assert_eq!(queue.pop(), Some(frame(0x10, 1)));
    assert_eq!(queue.transmit_candidate(state.last_rx_instant, 402), None);
}

#[test]
fn queued_event_is_encoded_for_the_node() {
    let mut queue = TxQueue::new(POOL_CAPACITY);
    let node = FrameId::Standard(3);
    assert_eq!(queue.queue_event(OutgoingFrame::Error(1), node), Ok(()));
    assert_eq!(
        queue.queue_event(
            OutgoingFrame::Update {
                current_now: 0,
                duty_now: 5
            },
            node
        ),
        Ok(())
    );
    let first = queue.pop().unwrap();
    assert_eq!(first.id, FrameId::Standard(0x003));
    assert_eq!(first.dlc, 1);
    assert_eq!(first.data, [1, 0, 0, 0, 0, 0, 0, 0]);
    let second = queue.pop().unwrap();
    assert_eq!(second.id, FrameId::Standard(0x103));
    assert_eq!(second.dlc, 6);
    assert_eq!(second.data, [5, 0, 0, 0, 0, 0, 0, 0]);
}

#[test]
fn priority_frames_compare_by_arbitration_only() {
    let a = PriorityFrame(frame(0x100, 1));
    let b = PriorityFrame(frame(0x100, 2));
    let c = PriorityFrame(frame(0x101, 1));
    assert!(a == b);
    assert!(a != c);
    assert!(a > c);
    assert!(c < b);
    assert_eq!(a.partial_cmp(&b), Some(Ordering::Equal));
    assert_eq!(a.partial_cmp(&c), Some(Ordering::Greater));
    assert_eq!(c.partial_cmp(&a), Some(Ordering::Less));
    assert!(a.rank() > c.rank());
    assert_eq!(a.rank(), u64::MAX - 0x100 * 0x10_0000);
}

fn as_bxcan(frame: &RawFrame) -> bxcan::Frame {
    let id = match frame.id {
        FrameId::Standard(raw) => bxcan::Id::Standard(bxcan::StandardId::new(raw).unwrap()),
        FrameId::Extended(raw) => bxcan::Id::Extended(bxcan::ExtendedId::new(raw).unwrap()),
    };
    if frame.remote {
        bxcan::Frame::new_remote(id, frame.dlc)
    } else {
        let data = bxcan::Data::new(&frame.data[..frame.dlc as usize]).unwrap();
        bxcan::Frame::new_data(id, data)
    }
}

#[test]
fn priority_order_is_that_of_the_transceiver() {
    let ids = [
        FrameId::Standard(0),
        FrameId::Standard(1),
        FrameId::Standard(0x103),
        FrameId::Standard(0x7FF),
        FrameId::Extended(0),
        FrameId::Extended(1),
        FrameId::Extended(1 << 18),
        FrameId::Extended(0x103 << 18),
        FrameId::Extended(0x103 << 18 | 0x3_FFFF),
        FrameId::Extended(0x1FFF_FFFF),
    ];
    let mut frames = Vec::new();
    for id in ids {
        frames.push(RawFrame::new_data(id, &[1, 2]).unwrap());
        frames.push(RawFrame::new_remote(id, 2).unwrap());
    }
    for a in &frames {
        for b in &frames {
            let ours = PriorityFrame(*a).partial_cmp(&PriorityFrame(*b));
            let theirs = as_bxcan(a).priority().cmp(&as_bxcan(b).priority());
            assert_eq!(ours, Some(theirs));
        }
    }
}

#[test]
fn frames_that_tie_all_come_out() {
    let mut queue = TxQueue::new(POOL_CAPACITY);
    assert_eq!(queue.push(frame(0x100, 1)), Ok(()));
    assert_eq!(queue.push(frame(0x100, 2)), Ok(()));
    assert_eq!(queue.push(frame(0x0FF, 3)), Ok(()));
    assert_eq!(queue.push(frame(0x100, 4)), Ok(()));
    assert_eq!(queue.pop(), Some(frame(0x0FF, 3)));
    let mut tags = Vec::new();
    while let Some(shown) = queue.peek() {
        let taken = queue.pop().unwrap();
        assert_eq!(shown, taken);
        assert_eq!(taken.id, FrameId::Standard(0x100));
        tags.push(taken.data[0]);
    }
    tags.sort();
    assert_eq!(tags, vec![1, 2, 4]);
}

#[test]
fn data_goes_before_remote_and_standard_before_extended() {
    let mut queue = TxQueue::new(POOL_CAPACITY);
    let remote = RawFrame::new_remote(FrameId::Standard(0x123), 0).unwrap();
    let data = RawFrame::new_data(FrameId::Standard(0x123), &[1]).unwrap();
    let extended = RawFrame::new_data(FrameId::Extended(0x123 << 18), &[2]).unwrap();
    let lower = RawFrame::new_data(FrameId::Extended(0x122 << 18 | 0x3_FFFF), &[3]).unwrap();
    for f in [extended, remote, lower, data] {
        assert_eq!(queue.push(f), Ok(()));
    }
    assert_eq!(queue.pop(), Some(lower));
    assert_eq!(queue.pop(), Some(data));
    assert_eq!(queue.pop(), Some(remote));
    assert_eq!(queue.pop(), Some(extended));
}
