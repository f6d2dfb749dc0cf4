use vstd::prelude::*;

verus! {

/// What the drive channels do while no drive is commanded.
#[derive(Clone, Copy, Debug, PartialEq, Eq, Structural)]
pub enum IdleMode {
    /// Both channels at full duty: the motor brakes dynamically.
    Brake,
    /// Both channels at zero duty: the motor free-wheels.
    Coast,
}

impl IdleMode {
    /// The idle mode that a wire byte stands for, if any: 0 is `Brake`, 1 is `Coast`.
    pub open spec fn of_byte(byte: u8) -> Option<IdleMode> {
        if byte == 0 {
            Some(IdleMode::Brake)
        } else if byte == 1 {
            Some(IdleMode::Coast)
        } else {
            None
        }
    }

    /// Reads an idle mode from its wire byte; any byte above 1 is refused.
    pub fn from_byte(byte: u8) -> (mode: Option<IdleMode>)
        ensures
            mode == Self::of_byte(byte),
    {
        if byte == 0 {
            Some(IdleMode::Brake)
        } else if byte == 1 {
            Some(IdleMode::Coast)
        } else {
            None
        }
    }

    /// The wire byte of this mode.
    pub fn to_byte(self) -> (byte: u8)
        ensures
            Self::of_byte(byte) == Some(self),
            byte <= 1,
    {
        match self {
            IdleMode::Brake => 0,
            IdleMode::Coast => 1,
        }
    }

    /// The duty that both drive channels get while idle.
    pub open spec fn idle_duty(self, max_duty: u16) -> u16 {
        match self {
            IdleMode::Coast => 0,
            IdleMode::Brake => max_duty,
        }
    }
}

} // verus!
