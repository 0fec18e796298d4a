use vstd::prelude::*;

verus! {

/// Why reading or writing firmware through the update target failed.
#[derive(Debug, Clone, Copy, PartialEq, Eq, Structural)]
pub enum Rp235xOtaError {
    Http,
    Flash,
    WriteChunkTooLarge,
}

} // verus!
