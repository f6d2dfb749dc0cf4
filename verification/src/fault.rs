use crate::can::OutgoingFrame;
use crate::error_codes::ErrorCode;
use vstd::prelude::*;

verus! {

/// The report that an edge on the overcurrent line calls for.
pub open spec fn overcurrent_event(current_now: u32, current_limit: u32) -> OutgoingFrame {
    OutgoingFrame::Overcurrent { current_now, current_limit }
}

/// The report that an edge on the driver-fault line calls for.
pub open spec fn driver_fault_event() -> OutgoingFrame {
    OutgoingFrame::Error(ErrorCode::MotorDriverFault.byte())
}

/// The reports that one run of the fault interrupt queues: one for the
/// overcurrent line if its edge is pending, then one for the driver-fault
/// line if its edge is pending. The currents are the bits of their
/// single-precision values.
pub fn fault_events(
    overcurrent_pending: bool,
    fault_pending: bool,
    current_now: u32,
    current_limit: u32,
) -> (events: (Option<OutgoingFrame>, Option<OutgoingFrame>))
    ensures
        events.0 == if overcurrent_pending {
            Some(overcurrent_event(current_now, current_limit))
        } else {
            None
        },
        events.1 == if fault_pending {
            Some(driver_fault_event())
        } else {
            None
        },
{
    let overcurrent = if overcurrent_pending {
        Some(OutgoingFrame::Overcurrent { current_now, current_limit })
    } else {
        None
    };
    let fault = if fault_pending {
        Some(OutgoingFrame::Error(1))
    } else {
        None
    };
    (overcurrent, fault)
}

} // verus!
