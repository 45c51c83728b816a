//! Validation of floating-point readings, carried as their IEEE-754 single-precision bits.

use vstd::prelude::*;
use crate::error::{RyzenAdjError, RyzenAdjResult};

verus! {

/// Bits of the exponent field of a single-precision value.
pub const EXPONENT_MASK: u32 = 0x7f80_0000;

/// Bits of the fraction field of a single-precision value.
pub const FRACTION_MASK: u32 = 0x007f_ffff;

/// Whether `bits` encode a NaN: all exponent bits set and a non-zero fraction.
pub open spec fn is_nan_bits(bits: u32) -> bool {
    (bits & EXPONENT_MASK) == EXPONENT_MASK && (bits & FRACTION_MASK) != 0
}

/// The outcome of a reading that the native library reported as `bits`.
pub open spec fn reading_outcome(bits: u32) -> RyzenAdjResult<u32> {
    if is_nan_bits(bits) {
        Err(RyzenAdjError::GetNaN)
    } else {
        Ok(bits)
    }
}

/// Rejects a NaN reading and passes any other one through unchanged.
///
/// The native library reports "not supported on this hardware" as NaN, so a
/// NaN is never handed to the caller.
pub fn is_nan(bits: u32) -> (r: RyzenAdjResult<u32>)
    ensures
        r == reading_outcome(bits),
        is_nan_bits(bits) ==> r == Err::<u32, _>(RyzenAdjError::GetNaN),
        !is_nan_bits(bits) ==> r == Ok::<u32, RyzenAdjError>(bits),
{
    if (bits & EXPONENT_MASK) == EXPONENT_MASK && (bits & FRACTION_MASK) != 0 {
        Err(RyzenAdjError::GetNaN)
    } else {
        Ok(bits)
    }
}

} // verus!
