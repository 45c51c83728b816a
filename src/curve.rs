//! Encoding of curve-optimizer offsets into the magnitude the native library expects.

use vstd::prelude::*;
use crate::error::{RyzenAdjError, RyzenAdjResult};

verus! {

/// The encoded magnitude of a zero offset; each core owns one slot of this size.
pub const CO_BASE: u32 = 0x100000;

/// The smallest accepted curve-optimizer offset.
pub const CO_MIN: i32 = -30;

/// The largest accepted curve-optimizer offset.
pub const CO_MAX: i32 = 30;

/// Whether `value` is an accepted curve-optimizer offset.
pub open spec fn offset_in_range(value: i32) -> bool {
    CO_MIN <= value <= CO_MAX
}

/// The magnitude that encodes the all-core offset `value`.
pub open spec fn coall_encoding(value: int) -> int {
    CO_BASE - value
}

/// The magnitude that encodes the offset `value` for core `core`.
pub open spec fn coper_encoding(core: int, value: int) -> int {
    CO_BASE * core + coall_encoding(value)
}

/// Whether every accepted offset for core `core` encodes into a `u32`.
pub open spec fn core_encodable(core: u32) -> bool {
    coper_encoding(core as int, CO_MIN as int) <= u32::MAX
}

/// Encodes an all-core offset, refusing one outside `[CO_MIN, CO_MAX]`.
pub fn coall_value(value: i32) -> (r: RyzenAdjResult<u32>)
    ensures
        offset_in_range(value) ==> r == Ok::<u32, RyzenAdjError>(
            coall_encoding(value as int) as u32,
        ),
        !offset_in_range(value) ==> r == Err::<u32, _>(RyzenAdjError::AdjValueOutOfRange),
        r matches Ok(m) ==> m == coall_encoding(value as int),
{
    if CO_MIN <= value && value <= CO_MAX {
        let m: i32 = CO_BASE as i32 - value;
        Ok(m as u32)
    } else {
        Err(RyzenAdjError::AdjValueOutOfRange)
    }
}

/// Encodes a per-core offset, refusing one outside `[CO_MIN, CO_MAX]`.
pub fn coper_value(core: u32, value: i32) -> (r: RyzenAdjResult<u32>)
    requires
        core_encodable(core),
    ensures
        offset_in_range(value) ==> r == Ok::<u32, RyzenAdjError>(
            coper_encoding(core as int, value as int) as u32,
        ),
        !offset_in_range(value) ==> r == Err::<u32, _>(RyzenAdjError::AdjValueOutOfRange),
        r matches Ok(m) ==> m == coper_encoding(core as int, value as int),
{
    match coall_value(value) {
        Ok(slot) => {
            assert(CO_BASE * core <= u32::MAX - slot) by (nonlinear_arith)
                requires
                    CO_BASE * core + CO_BASE + 30 <= u32::MAX,
                    slot <= CO_BASE + 30,
            ;
            Ok(CO_BASE * core + slot)
        },
        Err(e) => Err(e),
    }
}

} // verus!
