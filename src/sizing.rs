use vstd::prelude::*;

use crate::error::FillError;

verus! {

/// Size of one write chunk, and the smallest amount of free space that may
/// be asked to remain on a device.
pub const BUFFER_SIZE: u64 = 1024;

/// `desired` may be asked to remain free on a pool with `current_free` bytes
/// free: at least one chunk, and strictly less than what is free now.
pub open spec fn desired_accepted(current_free: u64, desired: u64) -> bool {
    BUFFER_SIZE <= desired && desired < current_free
}

/// The filler size for `desired`, or the error that refuses it.
pub open spec fn filler_outcome(current_free: u64, desired: u64) -> Result<u64, FillError> {
    if desired_accepted(current_free, desired) {
        Ok((current_free - desired) as u64)
    } else {
        Err(FillError::InvalidSize)
    }
}

/// Checks a desired remaining free space against the current free space and
/// returns the filler size that reaches it.
pub fn filler_size(current_free: u64, desired: u64) -> (r: Result<u64, FillError>)
    ensures
        r == filler_outcome(current_free, desired),
        desired_accepted(current_free, desired) <==> r is Ok,
        r is Ok ==> r->Ok_0 == current_free - desired,
        !desired_accepted(current_free, desired) ==> r == Err::<u64, FillError>(FillError::InvalidSize),
{
    if desired >= current_free || desired < BUFFER_SIZE {
        Err(FillError::InvalidSize)
    } else {
        Ok(current_free - desired)
    }
}

/// Every accepted desired free space leaves a filler of at least one byte,
/// and the check rejects exactly at the boundary: asking for all the free
/// space is refused, one byte less is accepted.
pub proof fn lemma_accepted_filler_positive(current_free: u64, desired: u64)
    ensures
        desired_accepted(current_free, desired) ==> current_free - desired > 0,
        !desired_accepted(current_free, current_free),
        current_free >= BUFFER_SIZE + 1 ==> desired_accepted(current_free, (current_free - 1) as u64),
{
}

} // verus!
