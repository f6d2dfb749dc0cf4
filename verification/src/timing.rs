use crate::link::{cycles_since, elapsed};
use vstd::prelude::*;

verus! {

/// Cycles of the system clock in one second.
pub const SYS_CLOCK_HZ: u32 = 72_000_000;

/// Cycles between two runs of the control loop.
pub const MOTOR_UPDATE_PD: u32 = SYS_CLOCK_HZ / 500;

/// Cycles between two status reports.
pub const CAN_VALUE_UPDATE_PD: u32 = SYS_CLOCK_HZ / 20;

/// Cycles between two updates of the status indicators.
pub const LED_UPDATE_PD: u32 = SYS_CLOCK_HZ / 8;

/// The period, in cycles, of a task that runs `times` times in a second.
pub fn times_per_second(times: u32) -> (cycles: u32)
    requires
        times > 0,
    ensures
        cycles == SYS_CLOCK_HZ / times,
{
    SYS_CLOCK_HZ / times
}

/// The instant `period` cycles after `now` on the wrapping cycle counter.
pub open spec fn instant_after(now: u32, period: u32) -> u32 {
    ((now + period) % 0x1_0000_0000) as u32
}

/// Longest time, in cycles, that two instants may lie apart and still be
/// told apart as earlier and later: half the counter's range.
pub const HORIZON: u32 = 0x8000_0000;

/// When a periodic task that runs at `now` is due next. A period of half
/// the counter's range or more cannot be told from a deadline in the past
/// and is not accepted.
pub fn next_deadline(now: u32, period: u32) -> (deadline: u32)
    requires
        period < HORIZON,
    ensures
        deadline == instant_after(now, period),
        elapsed(now, deadline) == period,
        period > 0 ==> precedes(now, deadline),
{
    if period <= u32::MAX - now {
        now + period
    } else {
        period - (u32::MAX - now) - 1
    }
}

/// `first` lies before `second`: the counter gets from the one to the other
/// in less than half its range.
pub open spec fn precedes(first: u32, second: u32) -> bool {
    0 < elapsed(first, second) < HORIZON
}

/// Computes [`precedes`].
pub fn is_before(first: u32, second: u32) -> (before: bool)
    ensures
        before == precedes(first, second),
{
    let apart = cycles_since(first, second);
    0 < apart && apart < HORIZON
}

/// The node's address as set on its bank of eight switches, the first
/// switch weighing least.
pub open spec fn switch_value(levels: Seq<bool>) -> nat
    recommends
        levels.len() == 8,
{
    weight(levels[0], 1) + weight(levels[1], 2) + weight(levels[2], 4) + weight(levels[3], 8)
        + weight(levels[4], 16) + weight(levels[5], 32) + weight(levels[6], 64) + weight(
        levels[7],
        128,
    )
}

/// What a switch adds to the address.
pub open spec fn weight(level: bool, value: nat) -> nat {
    if level {
        value
    } else {
        0
    }
}

/// Reads the node's address off the levels of its eight switches.
pub fn node_id_from_switches(levels: &[bool; 8]) -> (id: u16)
    ensures
        id == switch_value(levels@),
        id <= 0xFF,
{
    let mut id: u16 = 0;
    if levels[0] {
        id += 1;
    }
    if levels[1] {
        id += 2;
    }
    if levels[2] {
        id += 4;
    }
    if levels[3] {
        id += 8;
    }
    if levels[4] {
        id += 16;
    }
    if levels[5] {
        id += 32;
    }
    if levels[6] {
        id += 64;
    }
    if levels[7] {
        id += 128;
    }
    id
}

} // verus!
