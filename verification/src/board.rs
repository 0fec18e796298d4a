//! What a board hands the application for debugging.

use vstd::prelude::*;

verus! {

/// The debugging aids of a board: its status LED.
pub struct Rp235xDebugger<L> {
    pub led: L,
}

impl<L> Rp235xDebugger<L> {
    pub fn new(led: L) -> (d: Self)
        ensures
            d.led == led,
    {
        Self { led }
    }
}

} // verus!
