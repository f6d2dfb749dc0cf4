//! Decision logic of a single-motor controller node on a CAN bus: the frame
//! codec, the pooled priority transmit queue, the bus link monitor, the control
//! loop and the status indicator, each stated over plain values and proved.

pub mod can;
pub mod control;
pub mod error_codes;
pub mod fault;
pub mod idle_mode;
pub mod link;
pub mod heap;
pub mod pool;
pub mod priority;
pub mod queue;
pub mod sensor;
pub mod status;
pub mod timing;
