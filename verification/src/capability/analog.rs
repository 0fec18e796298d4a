use vstd::prelude::*;

verus! {

/// Marker for a pin or input that an analog reader can sample.
pub trait AnalogChannel {}

} // verus!
