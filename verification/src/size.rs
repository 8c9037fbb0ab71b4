//! Integer size types and conversions for canvas dimensions.
//!
//! The host DOM APIs traffic in floating point, but constraining dimensions
//! to integers avoids subtle rendering artifacts, so widths and heights are
//! carried as `u32` throughout.

use vstd::prelude::*;

verus! {

/// Represents width and height as `u32`.
#[derive(Clone, Copy)]
pub struct SizeU32 {
    pub height: u32,
    pub width: u32,
}

/// Widens a `u32` to `usize`; lossless on every supported target.
pub fn u32_to_usize(value: u32) -> (r: usize)
    ensures
        r == value,
{
    value as usize
}

/// Narrows a `usize` to `u32`. A value that does not fit has no meaningful
/// narrowing, so such inputs are excluded outright.
pub fn usize_to_u32(value: usize) -> (r: u32)
    requires
        value <= u32::MAX,
    ensures
        r == value,
{
    value as u32
}

} // verus!
