use vstd::prelude::*;

verus! {

/// A push-pull output line.
pub trait DigitalOutput {
    /// The level the line is driven to: `Some(true)` high, `Some(false)`
    /// low, `None` while the implementation cannot tell.
    spec fn level(&self) -> Option<bool>;

    /// The commands the line has been given, oldest first: `true` for
    /// `set_high`, `false` for `set_low`.  Every implementation defines
    /// it by the commands it records; the empty history written here only
    /// lets implementations outside verified code, where spec functions
    /// are erased, leave it out.
    open spec fn commands(&self) -> Seq<bool> {
        Seq::empty()
    }

    /// Drives the line high.
    fn set_high(&mut self)
        ensures
            final(self).level() == Some(true),
            final(self).commands() == old(self).commands().push(true),
    ;

    /// Drives the line low.
    fn set_low(&mut self)
        ensures
            final(self).level() == Some(false),
            final(self).commands() == old(self).commands().push(false),
    ;
}

/// A pin that can be turned into a digital output.
pub trait IntoDigitalOutput {
    type Output: DigitalOutput;

    /// The output that configuring this pin yields.
    spec fn output_of(self) -> Self::Output;

    /// Configures the pin as an output.
    fn into_digital_output(self) -> (out: Self::Output)
        ensures
            out == self.output_of(),
    ;
}

} // verus!
