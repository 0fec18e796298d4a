//! Composition of the field-edge device from board pins.

use vstd::prelude::*;

use crate::capability::IntoDigitalOutput;
use crate::driver::PumpPower;

verus! {

/// Builds a pump driver on `pin`, configured as a digital output; the
/// line keeps the level and the command history the configuration gave it.
pub fn create_pump_power<P>(pin: P) -> (p: PumpPower<P::Output>)
    where P: IntoDigitalOutput,
    ensures
        p.output() == pin.output_of(),
{
    PumpPower::new(pin.into_digital_output())
}

} // verus!
