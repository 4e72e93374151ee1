use vstd::prelude::*;

verus! {

/// One of the three SPC700 timers.
#[derive(Clone, Copy)]
pub struct Timer {
    pub enabled: bool,
    pub timer_target: u8,
    pub timer_output: u8,
}

impl Timer {
    pub fn new() -> (r: Timer)
        ensures
            !r.enabled && r.timer_target == 0 && r.timer_output == 0,
    {
        Timer { enabled: false, timer_target: 0, timer_output: 0 }
    }

    /// Starts or stops the timer (the counting itself is not emulated). A start (clear to
    /// set) resets the output TxOUT to 0.
    pub fn set_enabled(&mut self, enabled: bool)
        ensures
            *final(self) == (Timer {
                enabled,
                timer_output: if !old(self).enabled && enabled { 0 } else { old(self).timer_output },
                ..*old(self)
            }),
    {
        if !self.enabled && enabled {
            self.timer_output = 0;
        }
        self.enabled = enabled;
    }

    /// TnDIV: sets the target; the output reads it back.
    pub fn set_timer_target(&mut self, value: u8)
        ensures
            *final(self) == (Timer { timer_target: value, timer_output: value, ..*old(self) }),
    {
        self.timer_target = value;
        self.timer_output = value;
    }

    /// TnOUT.
    pub fn timer_output(&self) -> (r: u8)
        ensures
            r == self.timer_output,
    {
        self.timer_output
    }
}

} // verus!
