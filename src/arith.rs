//! The arithmetic guard: additions that report overflow instead of wrapping.
use vstd::prelude::*;
use crate::pallet::Error;

verus! {

/// Whether `a + b` fits in a cell.
pub open spec fn fits(a: u32, b: u32) -> bool {
    a + b <= u32::MAX
}

/// Adds two cell values, or fails with `Overflow` when the sum does not fit
/// in 32 bits.
pub fn checked_add(a: u32, b: u32) -> (r: Result<u32, Error>)
    ensures
        fits(a, b) ==> r == Ok::<u32, Error>((a + b) as u32),
        !fits(a, b) ==> r == Err::<u32, Error>(Error::Overflow),
{
    match a.checked_add(b) {
        Some(v) => Ok(v),
        None => Err(Error::Overflow),
    }
}

} // verus!
