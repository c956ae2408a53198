//! The tray icon's image.

use vstd::prelude::*;

verus! {

/// Width and height of the tray icon, in pixels.
pub const ICON_SIZE: u32 = 32;

/// The icon's color, as red, green, blue, alpha.
pub open spec fn icon_pixel(channel: int) -> u8 {
    if channel == 0 { 0 } else if channel == 1 { 120 } else if channel == 2 { 215 } else { 255 }
}

/// RGBA pixels of a square icon, `ICON_SIZE` wide, filled with one opaque
/// blue.
pub fn icon_rgba() -> (rgba: Vec<u8>)
    ensures
        rgba@.len() == ICON_SIZE * ICON_SIZE * 4,
        forall|i: int| 0 <= i < rgba@.len() ==> rgba@[i] == icon_pixel(i % 4),
{
    let n: usize = (ICON_SIZE as usize) * (ICON_SIZE as usize);
    let mut rgba: Vec<u8> = Vec::new();
    for p in 0..n
        invariant
            n == ICON_SIZE * ICON_SIZE,
            rgba@.len() == 4 * p,
            forall|i: int| 0 <= i < rgba@.len() ==> rgba@[i] == icon_pixel(i % 4),
    {
        rgba.push(0);
        rgba.push(120);
        rgba.push(215);
        rgba.push(255);
    }
    rgba
}

} // verus!
