use vstd::prelude::*;

use crate::capability::DigitalOutput;
use crate::driver::switch::Switch;

verus! {

/// A pump whose power is switched by one output line.
pub struct PumpPower<O> where O: DigitalOutput {
    switch: Switch<O>,
}

impl<O> PumpPower<O> where O: DigitalOutput {
    /// The output line that powers the pump.
    pub closed spec fn output(&self) -> O {
        self.switch.output()
    }

    /// The level of the power line.
    pub open spec fn commanded(&self) -> Option<bool> {
        self.output().level()
    }

    /// The pump runs when its power line is high.
    pub open spec fn is_running(&self) -> bool {
        self.commanded() == Some(true)
    }

    /// Wraps the power line as it is; nothing is driven.
    pub fn new(output: O) -> (p: Self)
        ensures
            p.output() == output,
    {
        Self { switch: Switch::new(output) }
    }

    /// Powers the pump: one `set_high` on its line, nothing else.
    pub fn start(&mut self)
        ensures
            final(self).output().level() == Some(true),
            final(self).output().commands() == old(self).output().commands().push(true),
    {
        self.switch.on();
    }

    /// Cuts the pump's power: one `set_low` on its line, nothing else.
    pub fn stop(&mut self)
        ensures
            final(self).output().level() == Some(false),
            final(self).output().commands() == old(self).output().commands().push(false),
    {
        self.switch.off();
    }
}

} // verus!
