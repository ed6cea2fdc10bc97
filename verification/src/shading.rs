//! Where on the screen the texture shows through the vertex colours.

use vstd::prelude::*;

verus! {

/// The pixel at column `x` and row `y` shows the texture: every sixth
/// column does, and in every fourth row the pixels whose column plus twice
/// the row, in 32-bit arithmetic, leaves less than two when divided by five.
pub open spec fn textured_at(x: u32, y: u32) -> bool {
    x % 6 == 1 || (y % 4 == 1 && ((x + 2 * y) % 0x1_0000_0000) % 5 < 2)
}

/// Whether the pixel at column `x` and row `y` shows the texture rather
/// than the colour handed down from the vertices.
pub fn is_textured(x: u32, y: u32) -> (textured: bool)
    ensures
        textured == textured_at(x, y),
{
    let sum: u64 = x as u64 + 2 * (y as u64);
    let wrapped: u64 = sum % 0x1_0000_0000;
    x % 6 == 1 || (y % 4 == 1 && wrapped % 5 < 2)
}

} // verus!
