//! Limits of writing firmware into the update partition.

use vstd::prelude::*;

use crate::ota::error::Rp235xOtaError;

verus! {

/// Bytes written into the update partition by one write at most.
pub const MAX_WRITE_SIZE: usize = 4 * 1024;

/// The largest piece that one write accepts.
pub fn max_write_size() -> (r: usize)
    ensures
        r == MAX_WRITE_SIZE,
{
    MAX_WRITE_SIZE
}

/// A write of `len` bytes may go ahead only if it is at most `MAX_WRITE_SIZE`.
pub fn check_write_len(len: usize) -> (r: Result<(), Rp235xOtaError>)
    ensures
        r is Ok <==> len <= MAX_WRITE_SIZE,
        r is Err ==> r == Err::<(), Rp235xOtaError>(Rp235xOtaError::WriteChunkTooLarge),
{
    if len > MAX_WRITE_SIZE {
        Err(Rp235xOtaError::WriteChunkTooLarge)
    } else {
        Ok(())
    }
}

} // verus!
