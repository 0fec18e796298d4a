use vstd::prelude::*;

use crate::capability::DigitalOutput;

verus! {

/// An on/off switch driven by one output line.
pub struct Switch<O> where O: DigitalOutput {
    output: O,
}

impl<O> Switch<O> where O: DigitalOutput {
    /// The output line the switch drives.
    pub closed spec fn output(&self) -> O {
        self.output
    }

    /// The level of the switch's line.
    pub open spec fn commanded(&self) -> Option<bool> {
        self.output().level()
    }

    /// The switch is on when its line is high.
    pub open spec fn is_on(&self) -> bool {
        self.commanded() == Some(true)
    }

    /// Wraps an output line as it is; nothing is driven.
    pub fn new(output: O) -> (s: Self)
        ensures
            s.output() == output,
    {
        Self { output }
    }

    /// Drives the line high: one `set_high`, nothing else.
    pub fn on(&mut self)
        ensures
            final(self).output().level() == Some(true),
            final(self).output().commands() == old(self).output().commands().push(true),
    {
        self.output.set_high();
    }

    /// Drives the line low: one `set_low`, nothing else.
    pub fn off(&mut self)
        ensures
            final(self).output().level() == Some(false),
            final(self).output().commands() == old(self).output().commands().push(false),
    {
        self.output.set_low();
    }
}

} // verus!
