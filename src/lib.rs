//! Device selection and presentation negotiation for a graphics runtime:
//! queue family resolution, device suitability and selection, the logical
//! device's queue plan and the swapchain configuration, all over plain values
//! that the host reads from the runtime.
use vstd::prelude::*;

pub mod device;
pub mod error;
pub mod queue_family;
pub mod swapchain;

verus! {

/// Clamps `val` into `[min, max]`; where `min > max` the lower bound wins.
pub fn clamp(val: u32, min: u32, max: u32) -> (r: u32)
    ensures
        r == clamp_spec(val as int, min as int, max as int),
        min <= max ==> min <= r <= max,
        min <= val <= max ==> r == val,
{
    let upper = if val < max { val } else { max };
    if upper > min { upper } else { min }
}

pub open spec fn clamp_spec(val: int, min: int, max: int) -> int {
    let upper = if val < max { val } else { max };
    if upper > min { upper } else { min }
}

} // verus!
