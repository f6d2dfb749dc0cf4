use vstd::prelude::*;

verus! {

/// What a status indicator shows.
#[derive(Clone, Copy, Debug, PartialEq, Eq, Structural)]
pub enum LedMode {
    Off,
    On,
    /// Lit for two updates out of four.
    FlashSlow,
    /// Lit for every other update.
    FlashFast,
    /// No pattern chosen; such an indicator cannot be updated.
    Unset,
}

/// What is to be done with the indicator's pin.
#[derive(Clone, Copy, Debug, PartialEq, Eq, Structural)]
pub enum PinCommand {
    SetHigh,
    SetLow,
    Toggle,
}

/// A status indicator: its mode, and its place in the cycle of four updates
/// that the flashing modes go through.
#[derive(Clone, Copy, Debug)]
pub struct StatusLed {
    current_mode: LedMode,
    count: u8,
}

/// What the pin is set to on an update in `mode`, `phase` updates into the
/// cycle of four.
pub open spec fn pin_at(mode: LedMode, phase: nat) -> PinCommand {
    let lit = match mode {
        LedMode::On => true,
        LedMode::FlashSlow => phase < 2,
        LedMode::FlashFast => phase % 2 == 0,
        _ => false,
    };
    if lit {
        PinCommand::SetHigh
    } else {
        PinCommand::SetLow
    }
}

impl StatusLed {
    /// The indicator's mode.
    pub closed spec fn mode(&self) -> LedMode {
        self.current_mode
    }

    /// How many updates into the cycle of four the indicator is.
    pub closed spec fn phase(&self) -> nat {
        (self.count % 4) as nat
    }

    /// An indicator in `mode`, at the start of its cycle.
    pub fn new_with_mode(mode: LedMode) -> (led: StatusLed)
        ensures
            led.mode() == mode,
            led.phase() == 0,
    {
        StatusLed { current_mode: mode, count: 0 }
    }

    /// An indicator that is off.
    pub fn new() -> (led: StatusLed)
        ensures
            led.mode() == LedMode::Off,
            led.phase() == 0,
    {
        Self::new_with_mode(LedMode::Off)
    }

    /// Computes [`StatusLed::mode`].
    pub fn current_mode(&self) -> (mode: LedMode)
        ensures
            mode == self.mode(),
    {
        self.current_mode
    }

    /// One update: says what the pin is to be set to, and moves on in the
    /// cycle.
    pub fn update(&mut self) -> (command: PinCommand)
        requires
            old(self).mode() != LedMode::Unset,
        ensures
            command == pin_at(old(self).mode(), old(self).phase()),
            final(self).mode() == old(self).mode(),
            final(self).phase() == (old(self).phase() + 1) % 4,
    {
        let phase: u8 = self.count % 4;
        let lit = match self.current_mode {
            LedMode::On => true,
            LedMode::FlashSlow => phase < 2,
            LedMode::FlashFast => phase % 2 == 0,
            _ => false,
        };
        self.count = (phase + 1) % 4;
        if lit {
            PinCommand::SetHigh
        } else {
            PinCommand::SetLow
        }
    }

    /// Changes the mode; the cycle goes on from where it is.
    pub fn set_mode(&mut self, desired_mode: LedMode)
        ensures
            final(self).mode() == desired_mode,
            final(self).phase() == old(self).phase(),
    {
        self.current_mode = desired_mode;
    }

    /// Changes the mode to [`LedMode::Off`].
    pub fn off(&mut self)
        ensures
            final(self).mode() == LedMode::Off,
            final(self).phase() == old(self).phase(),
    {
        self.set_mode(LedMode::Off);
    }

    /// Changes the mode to [`LedMode::On`].
    pub fn on(&mut self)
        ensures
            final(self).mode() == LedMode::On,
            final(self).phase() == old(self).phase(),
    {
        self.set_mode(LedMode::On);
    }

    /// Changes the mode to [`LedMode::FlashSlow`].
    pub fn flash_slow(&mut self)
        ensures
            final(self).mode() == LedMode::FlashSlow,
            final(self).phase() == old(self).phase(),
    {
        self.set_mode(LedMode::FlashSlow);
    }

    /// Changes the mode to [`LedMode::FlashFast`].
    pub fn flash_fast(&mut self)
        ensures
            final(self).mode() == LedMode::FlashFast,
            final(self).phase() == old(self).phase(),
    {
        self.set_mode(LedMode::FlashFast);
    }

    /// Lights the indicator at once, whatever its mode, which stays.
    pub fn force_on(&mut self) -> (command: PinCommand)
        ensures
            command == PinCommand::SetHigh,
            final(self).mode() == old(self).mode(),
            final(self).phase() == old(self).phase(),
    {
        PinCommand::SetHigh
    }

    /// Darkens the indicator at once, whatever its mode, which stays.
    pub fn force_off(&mut self) -> (command: PinCommand)
        ensures
            command == PinCommand::SetLow,
            final(self).mode() == old(self).mode(),
            final(self).phase() == old(self).phase(),
    {
        PinCommand::SetLow
    }

    /// Flips the indicator at once, whatever its mode, which stays.
    pub fn force_toggle(&mut self) -> (command: PinCommand)
        ensures
            command == PinCommand::Toggle,
            final(self).mode() == old(self).mode(),
            final(self).phase() == old(self).phase(),
    {
        PinCommand::Toggle
    }
}

} // verus!
