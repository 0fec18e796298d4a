//! Low-level traits that a hardware layer implements.

use vstd::prelude::*;

verus! {

/// An analog input that reports millivolts.
pub trait AnalogIn {
    type Error;

    fn read_mv(&mut self) -> Result<u16, Self::Error>;
}

/// A digital input line.
pub trait DigitalIn {
    fn get_level(&self) -> bool;
}

/// A bidirectional GPIO line.
pub trait DigitalPin {
    fn set_high(&mut self);

    fn set_low(&mut self);

    fn get_level(&self) -> bool;
}

} // verus!
