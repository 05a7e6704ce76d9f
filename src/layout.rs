//! Where the avatar image is drawn in the window.

use vstd::prelude::*;

verus! {

/// Units of the engine's vertical offset in one pixel.
pub const OFFSET_UNITS_PER_PIXEL: u64 = 10_000;

/// Where, and how large, the avatar image is drawn.
#[derive(Clone, Copy, Debug, PartialEq, Eq, Structural)]
pub struct Placement {
    pub x: i64,
    pub y: i64,
    pub width: u64,
    pub height: u32,
}

/// An offset in engine units rounded to whole pixels, halves up.
pub open spec fn offset_pixels(offset: u64) -> int {
    (offset + OFFSET_UNITS_PER_PIXEL / 2) / OFFSET_UNITS_PER_PIXEL as int
}

/// The height the avatar is drawn at: the window's height less the
/// expression's height reduction, and none where the reduction is larger.
pub open spec fn drawn_height(window_height: u32, height_reduction: u32) -> int {
    if height_reduction > window_height {
        0
    } else {
        window_height - height_reduction
    }
}

/// Places an image of `image_width` by `image_height` pixels in a window of
/// `window_width` by `window_height`: scaled to the window's height less
/// `height_reduction` with its aspect ratio kept (rounded down), centred
/// horizontally, resting on the window's bottom edge and lowered by the
/// engine's vertical `offset`. An image without height is drawn without
/// width.
pub fn avatar_placement(
    window_width: u32,
    window_height: u32,
    image_width: u32,
    image_height: u32,
    height_reduction: u32,
    offset: u64,
) -> (p: Placement)
    ensures
        p.height == drawn_height(window_height, height_reduction),
        p.width == if image_height == 0 {
            0
        } else {
            (image_width as int * p.height) / image_height as int
        },
        p.x == window_width / 2 - p.width / 2,
        p.y == (window_height - p.height) + offset_pixels(offset),
{
    let height: u32 = if height_reduction > window_height {
        0
    } else {
        window_height - height_reduction
    };
    let width: u64 = if image_height == 0 {
        0
    } else {
        assert((image_width as u64) * (height as u64) <= 0xffff_ffff * 0xffff_ffff)
            by (nonlinear_arith)
            requires
                image_width <= 0xffff_ffff,
                height <= 0xffff_ffff,
        ;
        let scaled = (image_width as u64) * (height as u64);
        assert(scaled / (image_height as u64) <= scaled) by (nonlinear_arith)
            requires
                image_height >= 1,
                scaled >= 0,
        ;
        scaled / (image_height as u64)
    };
    let lowered = ((offset as u128) + (OFFSET_UNITS_PER_PIXEL / 2) as u128) / (
    OFFSET_UNITS_PER_PIXEL as u128);
    assert(lowered <= 0x1_0000_0000_0000_0000int / 10_000);
    Placement {
        x: (window_width / 2) as i64 - (width / 2) as i64,
        y: (window_height - height) as i64 + lowered as i64,
        width,
        height,
    }
}

} // verus!
