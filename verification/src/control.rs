use crate::can::{IncomingFrame, OutgoingFrame};
use crate::idle_mode::IdleMode;
use crate::link::{cycles_since, elapsed, link_ok};
use vstd::prelude::*;

verus! {

/// The deadband that holds unless another is set: one hundredth of the
/// largest setpoint.
pub const MOTOR_DEADBAND: u16 = 327;

/// Current limit, in amperes, that holds until the bus sets another.
pub const DEFAULT_CURRENT_LIMIT: u8 = 10;

/// The state that the bus commands and that the periodic tasks read.
#[derive(Clone, Copy, Debug, PartialEq, Eq)]
pub struct ControlState {
    /// Commanded duty, signed; zero stops the motor.
    pub setpoint: i16,
    /// Whether the commanded direction is reversed.
    pub inverted: bool,
    /// Current limit in amperes.
    pub current_limit: u8,
    /// What the drive channels do while no drive is commanded.
    pub idle_mode: IdleMode,
    /// When the last frame was received, if any was.
    pub last_rx_instant: Option<u32>,
    /// When the last heartbeat was received, if any was.
    pub last_heartbeat_instant: Option<u32>,
    /// Cycles after which a missing heartbeat stops the motor; `None` where
    /// heartbeats are not supervised.
    pub heartbeat_timeout: Option<u32>,
    /// The last measured current, as the bits of its single-precision value.
    pub current_now: u32,
    /// The duty that the control loop last drove, signed.
    pub duty_now: i16,
    /// Setpoints of a magnitude below this one leave the motor idle.
    pub deadband: u16,
}

/// The duties of the two drive channels.
#[derive(Clone, Copy, Debug, PartialEq, Eq, Structural)]
pub struct DriveOutputs {
    pub forward: u16,
    pub reverse: u16,
}

impl ControlState {
    /// The state at start-up: motor stopped and coasting, nothing received.
    pub open spec fn initial(heartbeat_timeout: Option<u32>) -> ControlState {
        ControlState {
            setpoint: 0,
            inverted: false,
            current_limit: DEFAULT_CURRENT_LIMIT,
            idle_mode: IdleMode::Coast,
            last_rx_instant: None,
            last_heartbeat_instant: None,
            heartbeat_timeout,
            current_now: 0,
            duty_now: 0,
            deadband: MOTOR_DEADBAND,
        }
    }

    /// Computes [`ControlState::initial`].
    pub fn new(heartbeat_timeout: Option<u32>) -> (state: ControlState)
        ensures
            state == Self::initial(heartbeat_timeout),
    {
        ControlState {
            setpoint: 0,
            inverted: false,
            current_limit: DEFAULT_CURRENT_LIMIT,
            idle_mode: IdleMode::Coast,
            last_rx_instant: None,
            last_heartbeat_instant: None,
            heartbeat_timeout,
            current_now: 0,
            duty_now: 0,
            deadband: MOTOR_DEADBAND,
        }
    }

    /// The state after `command` has arrived at `now`: the field that the
    /// command names is set, a stop clears the setpoint, a heartbeat is
    /// noted where heartbeats are supervised, and in every case the frame
    /// counts as received at `now`.
    pub open spec fn after_command(self, command: IncomingFrame, now: u32) -> ControlState {
        let received = ControlState { last_rx_instant: Some(now), ..self };
        match command {
            IncomingFrame::Setpoint(setpoint) => ControlState { setpoint, ..received },
            IncomingFrame::SetCurrentLimit(current_limit) => ControlState {
                current_limit,
                ..received
            },
            IncomingFrame::Invert(inverted) => ControlState { inverted, ..received },
            IncomingFrame::SetIdleMode(idle_mode) => ControlState { idle_mode, ..received },
            IncomingFrame::HeartBeat => if self.heartbeat_timeout is Some {
                ControlState { last_heartbeat_instant: Some(now), ..received }
            } else {
                received
            },
            IncomingFrame::Stop => ControlState { setpoint: 0, ..received },
        }
    }

    /// Applies a decoded command that arrived at `now`. From then on the bus
    /// link is alive until it times out.
    pub fn apply_command(&mut self, command: IncomingFrame, now: u32)
        ensures
            *final(self) == old(self).after_command(command, now),
            final(self).last_rx_instant == Some(now),
            link_ok(final(self).last_rx_instant, now),
    {
        match command {
            IncomingFrame::Setpoint(setpoint) => {
                self.setpoint = setpoint;
            },
            IncomingFrame::SetCurrentLimit(limit) => {
                self.current_limit = limit;
            },
            IncomingFrame::Invert(inverted) => {
                self.inverted = inverted;
            },
            IncomingFrame::SetIdleMode(mode) => {
                self.idle_mode = mode;
            },
            IncomingFrame::HeartBeat => {
                if self.heartbeat_timeout.is_some() {
                    self.last_heartbeat_instant = Some(now);
                }
            },
            IncomingFrame::Stop => {
                self.setpoint = 0;
            },
        }
        self.last_rx_instant = Some(now);
    }

    /// The setpoint with the inversion applied.
    pub open spec fn effective_setpoint(self) -> int {
        if self.inverted {
            -(self.setpoint as int)
        } else {
            self.setpoint as int
        }
    }

    /// Heartbeats are supervised and none has come within the timeout.
    pub open spec fn heartbeat_stale(self, now: u32) -> bool {
        match self.heartbeat_timeout {
            None => false,
            Some(limit) => match self.last_heartbeat_instant {
                None => true,
                Some(instant) => elapsed(instant, now) > limit,
            },
        }
    }

    /// The magnitude of the setpoint, which the inversion does not change.
    pub open spec fn magnitude(self) -> int {
        if self.setpoint < 0 {
            -(self.setpoint as int)
        } else {
            self.setpoint as int
        }
    }

    /// The motor is not to be driven: the setpoint lies inside the deadband,
    /// or the heartbeat is stale.
    pub open spec fn stopped(self, now: u32) -> bool {
        self.magnitude() < self.deadband || self.heartbeat_stale(now)
    }

    /// The duties of the drive channels at `now`. While stopped both have
    /// the idle duty. Otherwise the magnitude of the effective setpoint is on
    /// the channel of its sign and the other channel is at zero.
    pub open spec fn drive(self, now: u32, max_duty: u16) -> DriveOutputs {
        let effective = self.effective_setpoint();
        if self.stopped(now) {
            DriveOutputs {
                forward: self.idle_mode.idle_duty(max_duty),
                reverse: self.idle_mode.idle_duty(max_duty),
            }
        } else if effective >= 0 {
            DriveOutputs { forward: effective as u16, reverse: 0 }
        } else {
            DriveOutputs { forward: 0, reverse: (-effective) as u16 }
        }
    }

    /// The effective setpoint as telemetry reports it: itself, but for the
    /// one value above the 16-bit range, which is reported as the largest.
    pub open spec fn telemetry_duty(self) -> i16 {
        let effective = self.effective_setpoint();
        if effective > 32767 {
            32767i16
        } else {
            effective as i16
        }
    }

    /// One period of the control loop: gives the duties of the two drive
    /// channels and records the effective setpoint for telemetry.
    pub fn motor_update(&mut self, now: u32, max_duty: u16) -> (out: DriveOutputs)
        ensures
            out == old(self).drive(now, max_duty),
            *final(self) == (ControlState { duty_now: old(self).telemetry_duty(), ..*old(self) }),
    {
        let effective: i32 = if self.inverted {
            -(self.setpoint as i32)
        } else {
            self.setpoint as i32
        };
        let stale = match self.heartbeat_timeout {
            None => false,
            Some(limit) => match self.last_heartbeat_instant {
                None => true,
                Some(instant) => cycles_since(instant, now) > limit,
            },
        };
        let magnitude: i32 = if effective < 0 {
            -effective
        } else {
            effective
        };
        let inside_deadband = magnitude < self.deadband as i32;
        let out = if stale || inside_deadband {
            let idle: u16 = match self.idle_mode {
                IdleMode::Coast => 0,
                IdleMode::Brake => max_duty,
            };
            DriveOutputs { forward: idle, reverse: idle }
        } else if effective >= 0 {
            DriveOutputs { forward: effective as u16, reverse: 0 }
        } else {
            DriveOutputs { forward: 0, reverse: (-effective) as u16 }
        };
        self.duty_now = if effective > 32767 {
            32767
        } else {
            effective as i16
        };
        out
    }

    /// Takes in what the current sensor measured: the bits of a reading, or
    /// nothing where its buffer was overrun; then the last reading stays.
    pub fn record_current(&mut self, reading: Option<u32>)
        ensures
            *final(self) == (ControlState {
                current_now: match reading {
                    Some(bits) => bits,
                    None => old(self).current_now,
                },
                ..*old(self)
            }),
    {
        match reading {
            Some(bits) => {
                self.current_now = bits;
            },
            None => {},
        }
    }

    /// The status report of this moment.
    pub fn status_update(&self) -> (event: OutgoingFrame)
        ensures
            event == (OutgoingFrame::Update {
                current_now: self.current_now,
                duty_now: self.duty_now,
            }),
    {
        OutgoingFrame::Update { current_now: self.current_now, duty_now: self.duty_now }
    }
}

/// A setpoint inside the deadband leaves both channels at the idle duty of
/// the idle mode, whatever its sign and whatever the inversion.
pub proof fn lemma_deadband_idles(state: ControlState, now: u32, max_duty: u16)
    requires
        state.magnitude() < state.deadband,
    ensures
        state.drive(now, max_duty).forward == state.idle_mode.idle_duty(max_duty),
        state.drive(now, max_duty).reverse == state.idle_mode.idle_duty(max_duty),
        state.idle_mode == IdleMode::Coast ==> state.drive(now, max_duty) == (DriveOutputs {
            forward: 0,
            reverse: 0,
        }),
        state.idle_mode == IdleMode::Brake ==> state.drive(now, max_duty) == (DriveOutputs {
            forward: max_duty,
            reverse: max_duty,
        }),
{
}

/// A setpoint at or beyond a deadband that is not zero, with the heartbeat
/// not stale, drives exactly one channel: the one of the effective sign
/// carries the magnitude, which is not zero, and the other is at zero.
pub proof fn lemma_drive_is_exclusive(state: ControlState, now: u32, max_duty: u16)
    requires
        state.deadband > 0,
        state.magnitude() >= state.deadband,
        !state.heartbeat_stale(now),
    ensures
        (state.drive(now, max_duty).forward == 0) != (state.drive(now, max_duty).reverse == 0),
        state.effective_setpoint() > 0 ==> state.drive(now, max_duty).forward
            == state.effective_setpoint() && state.drive(now, max_duty).reverse == 0,
        state.effective_setpoint() < 0 ==> state.drive(now, max_duty).reverse
            == -state.effective_setpoint() && state.drive(now, max_duty).forward == 0,
{
}

/// The duty that a channel gets for a requested one: the request, but never
/// above the channel's largest duty.
pub fn bounded_duty(requested: u16, max_duty: u16) -> (duty: u16)
    ensures
        duty <= max_duty,
        duty == if requested <= max_duty {
            requested
        } else {
            max_duty
        },
{
    if requested <= max_duty {
        requested
    } else {
        max_duty
    }
}

} // verus!
