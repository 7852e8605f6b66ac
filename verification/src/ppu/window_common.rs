//! Pixel packing shared by every frame consumer.

use vstd::prelude::*;

verus! {

/// A red, green, blue triple packed into one word as 0x00RRGGBB.
pub open spec fn spec_pack(r: u8, g: u8, b: u8) -> u32 {
    (r * 0x10000 + g * 0x100 + b) as u32
}

/// Packs a red, green, blue triple into one 0x00RRGGBB word.
pub fn pack(r: u8, g: u8, b: u8) -> (packed: u32)
    ensures
        packed == spec_pack(r, g, b),
{
    let r32 = r as u32;
    let g32 = g as u32;
    let b32 = b as u32;
    r32 * 0x10000 + g32 * 0x100 + b32
}

} // verus!
